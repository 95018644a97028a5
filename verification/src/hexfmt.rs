//! Rendering of the canonical device-id label: `"!"` followed by the
//! lower-case hexadecimal digits of a node number, without leading zeros.

use vstd::prelude::*;

verus! {

/// The lower-case hexadecimal digit for a value below sixteen.
pub open spec fn nibble_char(d: nat) -> char
    recommends
        d < 16,
{
    if d == 0 {
        '0'
    } else if d == 1 {
        '1'
    } else if d == 2 {
        '2'
    } else if d == 3 {
        '3'
    } else if d == 4 {
        '4'
    } else if d == 5 {
        '5'
    } else if d == 6 {
        '6'
    } else if d == 7 {
        '7'
    } else if d == 8 {
        '8'
    } else if d == 9 {
        '9'
    } else if d == 10 {
        'a'
    } else if d == 11 {
        'b'
    } else if d == 12 {
        'c'
    } else if d == 13 {
        'd'
    } else if d == 14 {
        'e'
    } else {
        'f'
    }
}

/// The hexadecimal digits of `n`, most significant first, as `{:x}` renders
/// them: no leading zeros, and a single `'0'` for zero itself.
pub open spec fn hex_seq(n: nat) -> Seq<char>
    decreases n,
{
    if n < 16 {
        seq![nibble_char(n)]
    } else {
        hex_seq(n / 16).push(nibble_char(n % 16))
    }
}

/// The canonical device-id label for a node number.
pub open spec fn device_id_seq(n: u32) -> Seq<char> {
    seq!['!'] + hex_seq(n as nat)
}

/// The device-id label a routed packet is attributed to: the inner `source`
/// field wins, except that a zero `source` defers to the outer `from` field.
pub open spec fn packet_device_id_seq(source: u32, from: u32) -> Seq<char> {
    if source == 0 {
        device_id_seq(from)
    } else {
        device_id_seq(source)
    }
}

fn nibble_str(d: u32) -> (r: &'static str)
    requires
        d < 16,
    ensures
        r@ == seq![nibble_char(d as nat)],
{
    let s: &'static str = match d {
        0 => "0",
        1 => "1",
        2 => "2",
        3 => "3",
        4 => "4",
        5 => "5",
        6 => "6",
        7 => "7",
        8 => "8",
        9 => "9",
        10 => "a",
        11 => "b",
        12 => "c",
        13 => "d",
        14 => "e",
        _ => "f",
    };
    proof {
        reveal_strlit("0");
        reveal_strlit("1");
        reveal_strlit("2");
        reveal_strlit("3");
        reveal_strlit("4");
        reveal_strlit("5");
        reveal_strlit("6");
        reveal_strlit("7");
        reveal_strlit("8");
        reveal_strlit("9");
        reveal_strlit("a");
        reveal_strlit("b");
        reveal_strlit("c");
        reveal_strlit("d");
        reveal_strlit("e");
        reveal_strlit("f");
        assert(s@ =~= seq![nibble_char(d as nat)]);
    }
    s
}

/// Renders `n` in lower-case hexadecimal, as `{:x}` would.
pub fn hex_str(n: u32) -> (r: String)
    ensures
        r@ == hex_seq(n as nat),
    decreases n,
{
    if n < 16 {
        nibble_str(n).to_owned()
    } else {
        let mut s = hex_str(n / 16);
        let digit = nibble_str(n % 16);
        s.append(digit);
        proof {
            assert(s@ =~= hex_seq(n as nat));
        }
        s
    }
}

/// Renders the canonical device-id label `"!"` + hex of `n`.
pub fn device_id_label(n: u32) -> (r: String)
    ensures
        r@ == device_id_seq(n),
{
    let mut s = "!".to_owned();
    let h = hex_str(n);
    s.append(h.as_str());
    proof {
        reveal_strlit("!");
        assert(s@ =~= device_id_seq(n));
    }
    s
}

/// Renders the device-id label a routed packet is attributed to, applying the
/// `source`-versus-`from` tie break.
pub fn packet_device_id(source: u32, from: u32) -> (r: String)
    ensures
        r@ == packet_device_id_seq(source, from),
{
    if source == 0 {
        device_id_label(from)
    } else {
        device_id_label(source)
    }
}

} // verus!
