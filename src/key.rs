//! The key and the initialization vector of the WiFi payload cipher.
use vstd::prelude::*;

use crate::contracts::AccessoryInfoGet;

verus! {

/// The upper-case hexadecimal digit of `d` (0 to 15).
pub open spec fn hex_digit(d: int) -> char {
    if d == 0 { '0' } else if d == 1 { '1' } else if d == 2 { '2' } else if d == 3 { '3' }
    else if d == 4 { '4' } else if d == 5 { '5' } else if d == 6 { '6' } else if d == 7 { '7' }
    else if d == 8 { '8' } else if d == 9 { '9' } else if d == 10 { 'A' } else if d == 11 { 'B' }
    else if d == 12 { 'C' } else if d == 13 { 'D' } else if d == 14 { 'E' } else { 'F' }
}

/// Whether `c` is a hexadecimal digit, of either case.
pub open spec fn is_hex_char(c: char) -> bool {
    ('0' <= c <= '9') || ('A' <= c <= 'F') || ('a' <= c <= 'f')
}

/// The value of the hexadecimal digit `c`.
pub open spec fn hex_value(c: char) -> int {
    if '0' <= c <= '9' {
        c as int - '0' as int
    } else if 'A' <= c <= 'F' {
        c as int - 'A' as int + 10
    } else {
        c as int - 'a' as int + 10
    }
}

/// Whether `s` is an even number of hexadecimal digits.
pub open spec fn is_hex_text(s: Seq<char>) -> bool {
    s.len() % 2 == 0 && forall|i: int| 0 <= i < s.len() ==> is_hex_char(#[trigger] s[i])
}

/// The bytes that the hexadecimal text `s` spells, two digits per byte.
pub open spec fn hex_bytes(s: Seq<char>) -> Seq<u8> {
    Seq::new(s.len() / 2, |i: int| (16 * hex_value(s[2 * i]) + hex_value(s[2 * i + 1])) as u8)
}

/// `v` as four upper-case hexadecimal digits, most significant first.
pub open spec fn hex4_text(v: u16) -> Seq<char> {
    seq![
        hex_digit((v / 4096) as int),
        hex_digit(((v / 256) % 16) as int),
        hex_digit(((v / 16) % 16) as int),
        hex_digit((v % 16) as int),
    ]
}

/// `v` with its two bytes exchanged.
pub open spec fn swap_bytes_spec(v: u16) -> u16 {
    ((v % 256) * 256 + v / 256) as u16
}

/// The key text: a fixed template holding the byte-swapped board type and
/// firmware build number as four hexadecimal digits each.
pub open spec fn key_text(board: u16, firmware: u16) -> Seq<char> {
    seq!['4', 'C', 'B', '4'] + hex4_text(swap_bytes_spec(board)) + seq![
        'B', '0', 'E', 'A', 'D', 'D', 'E', 'E', 'E', 'B', '2', 'A', '0', '3', '8', 'A', '3', '1',
    ] + hex4_text(swap_bytes_spec(firmware)) + seq!['5', '6']
}

/// The sixteen key bytes: the low byte of each number comes first.
pub open spec fn key_bytes(board: u16, firmware: u16) -> Seq<u8> {
    seq![
        0x4Cu8, 0xB4u8, (board % 256) as u8, (board / 256) as u8,
        0xB0u8, 0xEAu8, 0xDDu8, 0xEEu8, 0xEBu8, 0x2Au8, 0x03u8, 0x8Au8, 0x31u8,
        (firmware % 256) as u8, (firmware / 256) as u8, 0x56u8,
    ]
}

/// The fixed initialization vector shared by every accessory of the product line.
pub open spec fn iv_bytes() -> Seq<u8> {
    seq![
        0x04u8, 0x9Fu8, 0x6Fu8, 0x11u8, 0x49u8, 0xC6u8, 0xF8u8, 0x4Bu8,
        0x1Bu8, 0x14u8, 0x91u8, 0x3Cu8, 0x71u8, 0xE9u8, 0xCDu8, 0xBEu8,
    ]
}

/// Relies on std's `{:04X}` formatting: at least four upper-case hexadecimal
/// digits, zero-padded, most significant first; a `u16` needs no more than four.
#[verifier::external_body]
fn hex4_upper(v: u16) -> (r: String)
    ensures
        r@ == hex4_text(v),
{
    format!("{:04X}", v)
}

/// Relies on hex::decode: it succeeds exactly on an even number of hexadecimal
/// digits of either case, and turns each pair into one byte, high half first.
#[verifier::external_body]
fn hex_decode(s: &str) -> (r: Option<Vec<u8>>)
    ensures
        r is Some <==> is_hex_text(s@),
        r matches Some(b) ==> b@ == hex_bytes(s@),
{
    hex::decode(s).ok()
}

/// `v` with its two bytes exchanged.
pub fn swap_bytes(v: u16) -> (r: u16)
    ensures
        r == swap_bytes_spec(v),
{
    (v % 256) * 256 + v / 256
}

proof fn lemma_hex_digit(d: int)
    requires
        0 <= d < 16,
    ensures
        is_hex_char(hex_digit(d)),
        hex_value(hex_digit(d)) == d,
{
}

proof fn lemma_hex4(v: u16)
    ensures
        is_hex_text(hex4_text(v)),
        hex_bytes(hex4_text(v)) =~= seq![(v / 256) as u8, (v % 256) as u8],
{
    lemma_hex_digit((v / 4096) as int);
    lemma_hex_digit(((v / 256) % 16) as int);
    lemma_hex_digit(((v / 16) % 16) as int);
    lemma_hex_digit((v % 16) as int);
    assert(16 * (v / 4096) + (v / 256) % 16 == v / 256) by (bit_vector);
    assert(16 * ((v / 16) % 16) + v % 16 == v % 256) by (bit_vector);
    let t = hex4_text(v);
    assert forall|i: int| 0 <= i < t.len() implies is_hex_char(#[trigger] t[i]) by {
        assert(i == 0 || i == 1 || i == 2 || i == 3);
    }
}

proof fn lemma_hex_concat(a: Seq<char>, b: Seq<char>)
    requires
        is_hex_text(a),
        is_hex_text(b),
    ensures
        is_hex_text(a + b),
        hex_bytes(a + b) =~= hex_bytes(a) + hex_bytes(b),
{
    let c = a + b;
    assert forall|i: int| 0 <= i < c.len() implies is_hex_char(#[trigger] c[i]) by {
        if i < a.len() {
            assert(c[i] == a[i]);
        } else {
            assert(c[i] == b[i - a.len()]);
        }
    }
    assert forall|i: int| 0 <= i < hex_bytes(c).len() implies #[trigger] hex_bytes(c)[i] == (
    hex_bytes(a) + hex_bytes(b))[i] by {
        if i < a.len() / 2 {
            assert(c[2 * i] == a[2 * i] && c[2 * i + 1] == a[2 * i + 1]);
        } else {
            let j = i - a.len() / 2;
            assert(2 * i - a.len() == 2 * j);
            assert(c[2 * i] == b[2 * j] && c[2 * i + 1] == b[2 * j + 1]);
        }
    }
}

proof fn lemma_swap(v: u16)
    ensures
        swap_bytes_spec(v) / 256 == v % 256,
        swap_bytes_spec(v) % 256 == v / 256,
{
    assert(((v % 256) * 256 + v / 256) / 256 == v % 256) by (bit_vector);
    assert(((v % 256) * 256 + v / 256) % 256 == v / 256) by (bit_vector);
}

proof fn lemma_key_text(board: u16, firmware: u16)
    ensures
        is_hex_text(key_text(board, firmware)),
        hex_bytes(key_text(board, firmware)) =~= key_bytes(board, firmware),
{
    let head = seq!['4', 'C', 'B', '4'];
    let board_hex = hex4_text(swap_bytes_spec(board));
    let middle = seq![
        'B', '0', 'E', 'A', 'D', 'D', 'E', 'E', 'E', 'B', '2', 'A', '0', '3', '8', 'A', '3', '1',
    ];
    let firmware_hex = hex4_text(swap_bytes_spec(firmware));
    let tail = seq!['5', '6'];
    assert forall|i: int| 0 <= i < head.len() implies is_hex_char(#[trigger] head[i]) by {}
    assert forall|i: int| 0 <= i < middle.len() implies is_hex_char(#[trigger] middle[i]) by {}
    assert forall|i: int| 0 <= i < tail.len() implies is_hex_char(#[trigger] tail[i]) by {}
    lemma_hex4(swap_bytes_spec(board));
    lemma_hex4(swap_bytes_spec(firmware));
    lemma_swap(board);
    lemma_swap(firmware);
    lemma_hex_concat(head, board_hex);
    lemma_hex_concat(head + board_hex, middle);
    lemma_hex_concat(head + board_hex + middle, firmware_hex);
    lemma_hex_concat(head + board_hex + middle + firmware_hex, tail);
    assert(hex_bytes(head) =~= seq![0x4Cu8, 0xB4u8]);
    assert(hex_bytes(middle) =~= seq![
        0xB0u8, 0xEAu8, 0xDDu8, 0xEEu8, 0xEBu8, 0x2Au8, 0x03u8, 0x8Au8, 0x31u8,
    ]);
    assert(hex_bytes(tail) =~= seq![0x56u8]);
}

/// The key text for a board type and a firmware build number.
pub fn encryption_key_text(hardware_board_type: u16, firmware_build_number: u16) -> (r: String)
    ensures
        r@ == key_text(hardware_board_type, firmware_build_number),
{
    let board = hex4_upper(swap_bytes(hardware_board_type));
    let firmware = hex4_upper(swap_bytes(firmware_build_number));
    let mut key = String::from_str("4CB4");
    key.append(board.as_str());
    key.append("B0EADDEEEB2A038A31");
    key.append(firmware.as_str());
    key.append("56");
    proof {
        reveal_strlit("4CB4");
        reveal_strlit("B0EADDEEEB2A038A31");
        reveal_strlit("56");
        assert(key@ =~= key_text(hardware_board_type, firmware_build_number));
    }
    key
}

/// The key text for the accessory described by `data`.
pub fn get_encryption_key(data: &AccessoryInfoGet) -> (r: String)
    ensures
        r@ == key_text(data.hardware_board_type, data.firmware_build_number),
{
    encryption_key_text(data.hardware_board_type, data.firmware_build_number)
}

/// The sixteen key bytes for a board type and a firmware build number.
pub fn derive_key(hardware_board_type: u16, firmware_build_number: u16) -> (r: Vec<u8>)
    ensures
        r@ == key_bytes(hardware_board_type, firmware_build_number),
        r@.len() == 16,
{
    let text = encryption_key_text(hardware_board_type, firmware_build_number);
    proof {
        lemma_key_text(hardware_board_type, firmware_build_number);
    }
    let bytes = hex_decode(text.as_str());
    bytes.unwrap()
}

/// The fixed initialization vector of the payload cipher.
pub fn protocol_iv() -> (r: Vec<u8>)
    ensures
        r@ == iv_bytes(),
{
    let text = "049F6F1149C6F84B1B14913C71E9CDBE";
    proof {
        reveal_strlit("049F6F1149C6F84B1B14913C71E9CDBE");
        assert forall|i: int| 0 <= i < text@.len() implies is_hex_char(#[trigger] text@[i]) by {}
        assert(hex_bytes(text@) =~= iv_bytes());
    }
    let bytes = hex_decode(text);
    bytes.unwrap()
}

} // verus!
