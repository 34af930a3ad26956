//! Names and short texts used when reporting what reflection found.

use vstd::prelude::*;
use vstd::string::{StringExecFns, StringSliceAdditionalSpecFns};

verus! {

/// The name of a raw resource kind.
pub open spec fn input_type_name(t: u32) -> Seq<char> {
    if t == 0 {
        "cbuffer"@
    } else if t == 1 {
        "tbuffer"@
    } else if t == 2 {
        "texture"@
    } else if t == 3 {
        "sampler"@
    } else if t == 4 {
        "uav_rwtyped"@
    } else if t == 5 {
        "structured"@
    } else if t == 6 {
        "uav_rwstructured"@
    } else if t == 7 {
        "byteaddress"@
    } else if t == 8 {
        "uav_rwbyteaddress"@
    } else if t == 9 {
        "uav_append_structured"@
    } else if t == 10 {
        "uav_consume_structured"@
    } else if t == 11 {
        "uav_rwstructured_with_counter"@
    } else {
        "unknown"@
    }
}

/// The name of a raw resource kind; "unknown" past the known kinds.
pub fn shader_input_type_name(t: u32) -> (r: &'static str)
    ensures
        r@ == input_type_name(t),
{
    match t {
        0 => "cbuffer",
        1 => "tbuffer",
        2 => "texture",
        3 => "sampler",
        4 => "uav_rwtyped",
        5 => "structured",
        6 => "uav_rwstructured",
        7 => "byteaddress",
        8 => "uav_rwbyteaddress",
        9 => "uav_append_structured",
        10 => "uav_consume_structured",
        11 => "uav_rwstructured_with_counter",
        _ => "unknown",
    }
}

/// The name of a raw component type: uint, int, float, else unknown.
pub fn component_type_name(t: u32) -> (r: &'static str)
    ensures
        r@ == if t == 1 {
            "uint"@
        } else if t == 2 {
            "int"@
        } else if t == 3 {
            "float"@
        } else {
            "unknown"@
        },
{
    match t {
        1 => "uint",
        2 => "int",
        3 => "float",
        _ => "unknown",
    }
}

/// The components a mask selects, in x, y, z, w order.
pub open spec fn mask_letters(mask: u8) -> Seq<char> {
    (if mask & 1 != 0 { seq!['x'] } else { Seq::empty() }) + (if mask & 2 != 0 { seq!['y'] } else {
        Seq::empty()
    }) + (if mask & 4 != 0 { seq!['z'] } else { Seq::empty() }) + (if mask & 8 != 0 { seq!['w'] } else {
        Seq::empty()
    })
}

/// The components a mask selects ("xyzw" order), or "none".
pub fn mask_to_string(mask: u8) -> (r: String)
    ensures
        r@ == if mask_letters(mask).len() == 0 {
            seq!['n', 'o', 'n', 'e']
        } else {
            mask_letters(mask)
        },
{
    proof {
        reveal_strlit("x");
        reveal_strlit("y");
        reveal_strlit("z");
        reveal_strlit("w");
        reveal_strlit("");
        reveal_strlit("none");
    }
    let mut s = String::from_str("");
    if mask & 1 != 0 {
        s = s.concat("x");
    }
    if mask & 2 != 0 {
        s = s.concat("y");
    }
    if mask & 4 != 0 {
        s = s.concat("z");
    }
    if mask & 8 != 0 {
        s = s.concat("w");
    }
    assert(s@ =~= mask_letters(mask));
    if s.as_str().is_empty() {
        s = String::from_str("none");
    }
    s
}

/// Index of the first '=' byte of `b`, if any.
pub open spec fn first_equals(b: Seq<u8>) -> Option<int> {
    if exists|i: int| 0 <= i < b.len() && b[i] == 61 {
        Some(choose|i: int| 0 <= i < b.len() && b[i] == 61 && forall|j: int| 0 <= j < i ==> b[j] != 61)
    } else {
        None
    }
}

/// Splits a "NAME=VALUE" definition at its first '='; a bare name gets the
/// value "1".
pub fn parse_define(s: &str) -> (r: (String, String))
    ensures
        match first_equals(s.spec_bytes()) {
            Some(i) => r.0@ == vstd::utf8::decode_utf8(s.spec_bytes().take(i)) && r.1@
                == vstd::utf8::decode_utf8(s.spec_bytes().skip(i + 1)),
            None => r.0@ == s@ && r.1@ == "1"@,
        },
{
    let b = s.as_bytes();
    let mut i: usize = 0;
    while i < b.len() && b[i] != 61
        invariant
            i <= b@.len(),
            forall|j: int| 0 <= j < i ==> b@[j] != 61,
        decreases b@.len() - i,
    {
        i = i + 1;
    }
    proof {
        vstd::utf8::encode_utf8_valid_utf8(s@);
        vstd::utf8::encode_utf8_decode_utf8(s@);
    }
    if i == b.len() {
        assert(first_equals(s.spec_bytes()) is None);
        return (s.to_owned(), String::from_str("1"));
    }
    assert(first_equals(s.spec_bytes()) == Some(i as int)) by {
        let k = choose|k: int|
            0 <= k < b@.len() && b@[k] == 61 && forall|j: int| 0 <= j < k ==> b@[j] != 61;
        assert(k == i) by {
            if k < i {
            } else if k > i {
            }
        }
    }
    proof {
        vstd::utf8::is_char_boundary_iff_is_leading_byte(s.spec_bytes(), i as int);
    }
    let (name, rest) = s.split_at(i);
    proof {
        vstd::utf8::encode_utf8_valid_utf8(rest@);
        vstd::utf8::encode_utf8_decode_utf8(name@);
        assert(rest.spec_bytes()[0] == 61);
        assert(vstd::utf8::length_of_first_scalar(rest.spec_bytes()) == 1);
        reveal_with_fuel(vstd::utf8::is_char_boundary, 2);
        assert(vstd::utf8::is_char_boundary(rest.spec_bytes(), 1));
    }
    let (_, value) = rest.split_at(1);
    proof {
        vstd::utf8::encode_utf8_decode_utf8(value@);
        assert(value.spec_bytes() =~= s.spec_bytes().skip(i + 1));
    }
    (name.to_owned(), value.to_owned())
}

} // verus!
