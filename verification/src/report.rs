//! Texts that the program prints.
use vstd::prelude::*;

use crate::card::CardInfo;
use crate::config::PrivateKeyConfig;
use crate::keys::Key;
use crate::text::{decimal, decimal_text};

verus! {

/// The digit of base64 with a value below 64, in the standard alphabet.
pub open spec fn base64_digit(value: int) -> char {
    "ABCDEFGHIJKLMNOPQRSTUVWXYZabcdefghijklmnopqrstuvwxyz0123456789+/"@[value]
}

/// The value of digit `i` of a key: every three bytes make four digits of six
/// bits, most significant first, and zero bits follow the last byte.
pub open spec fn base64_value(key: Key, i: int) -> int {
    let at = |k: int| if k < 32 { key@[k] as int } else { 0 };
    let group = i / 4 * 3;
    let bits = at(group) * 0x1_0000 + at(group + 1) * 0x100 + at(group + 2);
    if i % 4 == 0 {
        bits / 0x4_0000
    } else if i % 4 == 1 {
        bits / 0x1000 % 64
    } else if i % 4 == 2 {
        bits / 64 % 64
    } else {
        bits % 64
    }
}

/// A key in base64: 43 digits and a padding character.
pub open spec fn base64_key(key: Key) -> Seq<char> {
    Seq::new(43, |i: int| base64_digit(base64_value(key, i))) + "="@
}

/// `base64::Engine::encode` of `base64::engine::general_purpose::STANDARD`, on
/// the 32 bytes of a key. Claimed: the text is the base64 encoding with the
/// standard alphabet and with padding.
#[verifier::external_body]
fn encode_key(key: &Key) -> (text: String)
    ensures
        text@ == base64_key(*key),
{
    base64::Engine::encode(&base64::engine::general_purpose::STANDARD, key)
}

/// The line that shows our public key, given the encoded key.
pub fn key_shown(encoded: &str) -> (line: String)
    ensures
        line@ == "Public key: "@ + encoded@,
{
    "Public key: ".to_owned().concat(encoded)
}

/// The line that shows our public key.
pub fn public_key_line(key: &Key) -> (line: String)
    ensures
        line@ == "Public key: "@ + base64_key(*key),
{
    key_shown(encode_key(key).as_str())
}

/// The line that says how many peers there are.
pub fn peers_line(peers: usize) -> (line: String)
    ensures
        line@ == decimal(peers as nat) + " peer(s) configured"@,
{
    decimal_text(peers).concat(" peer(s) configured")
}

/// The line that says where the private key is.
pub open spec fn key_announcement(key: PrivateKeyConfig) -> Seq<char> {
    match key {
        PrivateKeyConfig::Software(_) => "Using software private key"@,
        PrivateKeyConfig::Smartcard(ident) => "Opening smartcard "@ + ident@ + "..."@,
        PrivateKeyConfig::SmartcardAuto => "Auto-detecting smartcard..."@,
    }
}

/// The line that says where the private key is.
pub fn key_line(key: &PrivateKeyConfig) -> (line: String)
    ensures
        line@ == key_announcement(*key),
        match key {
            PrivateKeyConfig::Software(_) => line@ == "Using software private key"@,
            PrivateKeyConfig::Smartcard(ident) => line@ == "Opening smartcard "@ + ident@ + "..."@,
            PrivateKeyConfig::SmartcardAuto => line@ == "Auto-detecting smartcard..."@,
        },
{
    match key {
        PrivateKeyConfig::Software(_) => "Using software private key".to_owned(),
        PrivateKeyConfig::Smartcard(ident) => "Opening smartcard ".to_owned().concat(
            ident.as_str(),
        ).concat("..."),
        PrivateKeyConfig::SmartcardAuto => "Auto-detecting smartcard...".to_owned(),
    }
}

/// The paragraph about one card, given the encoded public key.
pub open spec fn entry_text(ident: Seq<char>, encoded: Seq<char>) -> Seq<char> {
    "  Card:       "@ + ident + "\n"@ + "  Public key: "@ + encoded + "\n\n"@
}

/// The paragraph about one card, given the encoded public key.
pub fn card_entry(ident: &str, encoded: &str) -> (text: String)
    ensures
        text@ == entry_text(ident@, encoded@),
        text@ == "  Card:       "@ + ident@ + "\n"@ + "  Public key: "@ + encoded@ + "\n\n"@,
{
    "  Card:       ".to_owned().concat(ident).concat("\n").concat("  Public key: ").concat(
        encoded,
    ).concat("\n\n")
}

/// The paragraphs about the first `upto` cards.
pub open spec fn entries_text(cards: Seq<CardInfo>, upto: nat) -> Seq<char>
    decreases upto,
{
    if upto == 0 {
        Seq::empty()
    } else {
        let card = cards[upto - 1];
        entries_text(cards, (upto - 1) as nat) + entry_text(
            card.ident@,
            base64_key(card.public_key),
        )
    }
}

/// The text for the case that no card was found.
pub open spec fn no_cards_text() -> Seq<char> {
    "No OpenPGP smartcards with X25519 decryption keys found.\n\nMake sure:\n  - A smartcard reader is connected\n  - The card has an X25519 key in the decryption slot\n  - pcscd is running (Linux: systemctl start pcscd)\n"@
}

/// What is printed about a list of cards.
pub open spec fn report_text(cards: Seq<CardInfo>) -> Seq<char> {
    if cards.len() == 0 {
        no_cards_text()
    } else {
        "Found "@ + decimal(cards.len()) + " card(s):\n\n"@ + entries_text(cards, cards.len())
    }
}

/// Renders the list of the connected cards.
pub fn card_report(cards: &Vec<CardInfo>) -> (text: String)
    ensures
        text@ == report_text(cards@),
        cards@.len() == 0 ==> text@ == "No OpenPGP smartcards with X25519 decryption keys found.\n\nMake sure:\n  - A smartcard reader is connected\n  - The card has an X25519 key in the decryption slot\n  - pcscd is running (Linux: systemctl start pcscd)\n"@,
        cards@.len() > 0 ==> ("Found "@ + decimal(cards@.len()) + " card(s):\n\n"@).is_prefix_of(
            text@,
        ),
{
    if cards.len() == 0 {
        return "No OpenPGP smartcards with X25519 decryption keys found.\n\nMake sure:\n  - A smartcard reader is connected\n  - The card has an X25519 key in the decryption slot\n  - pcscd is running (Linux: systemctl start pcscd)\n".to_owned();
    }
    let mut text = "Found ".to_owned().concat(decimal_text(cards.len()).as_str()).concat(
        " card(s):\n\n",
    );
    let ghost head = text@;
    for i in 0..cards.len()
        invariant
            text@ == head + entries_text(cards@, i as nat),
    {
        let encoded = encode_key(&cards[i].public_key);
        text.append(card_entry(cards[i].ident.as_str(), encoded.as_str()).as_str());
        assert(text@ =~= head + entries_text(cards@, (i + 1) as nat));
    }
    text
}

/// The text without cards is shown exactly if there are none.
pub proof fn law_cards_are_never_denied(cards: Seq<CardInfo>)
    ensures
        report_text(cards) == "No OpenPGP smartcards with X25519 decryption keys found.\n\nMake sure:\n  - A smartcard reader is connected\n  - The card has an X25519 key in the decryption slot\n  - pcscd is running (Linux: systemctl start pcscd)\n"@ <==> cards.len() == 0,
        cards.len() > 0 ==> ("Found "@ + decimal(cards.len()) + " card(s):\n\n"@).is_prefix_of(
            report_text(cards),
        ),
{
    reveal_strlit("Found ");
    reveal_strlit(
        "No OpenPGP smartcards with X25519 decryption keys found.\n\nMake sure:\n  - A smartcard reader is connected\n  - The card has an X25519 key in the decryption slot\n  - pcscd is running (Linux: systemctl start pcscd)\n",
    );
    if cards.len() > 0 {
        assert(report_text(cards)[0] == 'F');
        assert("No OpenPGP smartcards with X25519 decryption keys found.\n\nMake sure:\n  - A smartcard reader is connected\n  - The card has an X25519 key in the decryption slot\n  - pcscd is running (Linux: systemctl start pcscd)\n"@[0]
            == 'N');
    }
}

proof fn lemma_entries_of_more(cards: Seq<CardInfo>, card: CardInfo, upto: nat)
    requires
        upto <= cards.len(),
    ensures
        entries_text(cards.push(card), upto) == entries_text(cards, upto),
    decreases upto,
{
    if upto > 0 {
        lemma_entries_of_more(cards, card, (upto - 1) as nat);
    }
}

/// One more card adds one to the number and its own paragraph to the end, with
/// its identifier and its key in base64, and changes nothing else; a single
/// card is shown as such.
pub proof fn law_one_more_card_one_more_paragraph(cards: Seq<CardInfo>, card: CardInfo)
    ensures
        ({
            let paragraph = "  Card:       "@ + card.ident@ + "\n"@ + "  Public key: "@ + base64_key(
                card.public_key,
            ) + "\n\n"@;
            let more = report_text(cards.push(card));
            let header = "Found "@ + decimal(cards.len() + 1) + " card(s):\n\n"@;
            &&& cards.len() == 0 ==> more == header + paragraph
            &&& cards.len() > 0 ==> exists|shown: Seq<char>|
                {
                    &&& report_text(cards) == #[trigger] ("Found "@ + decimal(cards.len())
                        + " card(s):\n\n"@ + shown)
                    &&& more == header + (shown + paragraph)
                }
        }),
{
    let paragraph = "  Card:       "@ + card.ident@ + "\n"@ + "  Public key: "@ + base64_key(
        card.public_key,
    ) + "\n\n"@;
    let header = "Found "@ + decimal(cards.len() + 1) + " card(s):\n\n"@;
    let all = cards.push(card);
    let shown = entries_text(cards, cards.len());
    lemma_entries_of_more(cards, card, cards.len());
    reveal_with_fuel(entries_text, 2);
    assert(all.len() == cards.len() + 1);
    assert(all[cards.len() as int] == card);
    assert(((cards.len() + 1) - 1) as nat == cards.len());
    assert(entries_text(all, all.len()) == shown + paragraph);
    if cards.len() == 0 {
        assert(shown =~= Seq::<char>::empty());
        assert(report_text(all) =~= header + paragraph);
    } else {
        assert(report_text(cards) == "Found "@ + decimal(cards.len()) + " card(s):\n\n"@ + shown);
    }
}

/// Every card of the list is shown, wherever it stands in the list: the text
/// holds its identifier and its key in base64.
pub proof fn law_every_card_is_shown(cards: Seq<CardInfo>, i: int)
    requires
        0 <= i < cards.len(),
    ensures
        exists|before: Seq<char>, after: Seq<char>|
            report_text(cards) == #[trigger] (before + ("  Card:       "@ + cards[i].ident@ + "\n"@
                + "  Public key: "@ + base64_key(cards[i].public_key) + "\n\n"@) + after),
{
    let n = cards.len();
    let header = "Found "@ + decimal(n) + " card(s):\n\n"@;
    let paragraph = "  Card:       "@ + cards[i].ident@ + "\n"@ + "  Public key: "@ + base64_key(
        cards[i].public_key,
    ) + "\n\n"@;
    let (before, after) = lemma_entry_among(cards, i, n);
    assert(report_text(cards) =~= (header + before) + paragraph + after);
}

proof fn lemma_entry_among(cards: Seq<CardInfo>, i: int, upto: nat) -> (parts: (
    Seq<char>,
    Seq<char>,
))
    requires
        0 <= i < upto <= cards.len(),
    ensures
        entries_text(cards, upto) == parts.0 + entry_text(
            cards[i].ident@,
            base64_key(cards[i].public_key),
        ) + parts.1,
    decreases upto,
{
    let last = entry_text(cards[upto - 1].ident@, base64_key(cards[upto - 1].public_key));
    if i == upto - 1 {
        let parts = (entries_text(cards, (upto - 1) as nat), Seq::<char>::empty());
        assert(entries_text(cards, upto) =~= parts.0 + last + parts.1);
        parts
    } else {
        let (before, after) = lemma_entry_among(cards, i, (upto - 1) as nat);
        let parts = (before, after + last);
        assert(entries_text(cards, upto) =~= parts.0 + entry_text(
            cards[i].ident@,
            base64_key(cards[i].public_key),
        ) + parts.1);
        parts
    }
}

proof fn lemma_six_bits(n: u32)
    requires
        n < 0x100_0000,
    ensures
        n / 0x4_0000 < 64,
        (n / 0x4_0000) * 0x4_0000 + (n / 0x1000 % 64) * 0x1000 + (n / 64 % 64) * 64 + n % 64 == n,
{
    assert(n / 0x4_0000 < 64 && (n / 0x4_0000) * 0x4_0000 + (n / 0x1000 % 64) * 0x1000 + (n / 64
        % 64) * 64 + n % 64 == n) by (bit_vector)
        requires
            n < 0x100_0000,
    ;
}

/// The base64 digits of a key give its bytes back: four digits of six bits are
/// three bytes, and zero bits fill the last group. A key is written with 44
/// characters, of which the last is the padding.
pub proof fn law_base64_keeps_the_bytes(key: Key, group: int)
    requires
        0 <= group < 11,
    ensures
        base64_key(key).len() == 44,
        base64_key(key)[43] == '=',
        ({
            let first = base64_value(key, 4 * group);
            let second = base64_value(key, 4 * group + 1);
            let third = base64_value(key, 4 * group + 2);
            let fourth = base64_value(key, 4 * group + 3);
            &&& 0 <= first < 64 && 0 <= second < 64 && 0 <= third < 64 && 0 <= fourth < 64
            &&& first * 0x4_0000 + second * 0x1000 + third * 64 + fourth == key@[3 * group]
                * 0x1_0000 + key@[3 * group + 1] * 0x100 + (if group < 10 {
                key@[3 * group + 2] as int
            } else {
                0
            })
        }),
{
    reveal_strlit("=");
    let third_byte = if group < 10 {
        key@[3 * group + 2] as int
    } else {
        0
    };
    let bits = key@[3 * group] * 0x1_0000 + key@[3 * group + 1] * 0x100 + third_byte;
    lemma_six_bits(bits as u32);
    assert(4 * group / 4 == group && (4 * group + 1) / 4 == group && (4 * group + 2) / 4 == group
        && (4 * group + 3) / 4 == group);
    assert(4 * group % 4 == 0 && (4 * group + 1) % 4 == 1 && (4 * group + 2) % 4 == 2 && (4 * group
        + 3) % 4 == 3);
    assert(base64_value(key, 4 * group) == bits / 0x4_0000);
    assert(base64_value(key, 4 * group + 1) == bits / 0x1000 % 64);
    assert(base64_value(key, 4 * group + 2) == bits / 64 % 64);
    assert(base64_value(key, 4 * group + 3) == bits % 64);
}

} // verus!
