//! Identifiers of the objects that the store keeps.

use vstd::prelude::*;
use vstd::string::StringExecFns;

verus! {

/// The opaque, content-derived identifier that the object store gives to a
/// commit or a tree: its twenty raw bytes.
#[derive(Clone, Copy, Debug, PartialEq, Eq, Hash)]
pub struct ObjectId {
    pub bytes: [u8; 20],
}

impl View for ObjectId {
    type V = Seq<u8>;

    open spec fn view(&self) -> Seq<u8> {
        self.bytes@
    }
}

/// The lower-case hexadecimal digit of a value below sixteen.
pub open spec fn hex_digit(nibble: int) -> char {
    if nibble == 0 {
        '0'
    } else if nibble == 1 {
        '1'
    } else if nibble == 2 {
        '2'
    } else if nibble == 3 {
        '3'
    } else if nibble == 4 {
        '4'
    } else if nibble == 5 {
        '5'
    } else if nibble == 6 {
        '6'
    } else if nibble == 7 {
        '7'
    } else if nibble == 8 {
        '8'
    } else if nibble == 9 {
        '9'
    } else if nibble == 10 {
        'a'
    } else if nibble == 11 {
        'b'
    } else if nibble == 12 {
        'c'
    } else if nibble == 13 {
        'd'
    } else if nibble == 14 {
        'e'
    } else {
        'f'
    }
}

/// The hexadecimal text of `bytes`: two lower-case digits for each byte, the
/// high half first.
pub open spec fn hex_of(bytes: Seq<u8>) -> Seq<char> {
    Seq::new(
        2 * bytes.len(),
        |i: int|
            if i % 2 == 0 {
                hex_digit(bytes[i / 2] as int / 16)
            } else {
                hex_digit(bytes[i / 2] as int % 16)
            },
    )
}

/// The one-character text of the hexadecimal digit of `nibble`.
fn hex_digit_text(nibble: u8) -> (text: &'static str)
    requires
        nibble < 16,
    ensures
        text@ == seq![hex_digit(nibble as int)],
{
    proof {
        reveal_strlit("0");
        reveal_strlit("1");
        reveal_strlit("2");
        reveal_strlit("3");
        reveal_strlit("4");
        reveal_strlit("5");
        reveal_strlit("6");
        reveal_strlit("7");
        reveal_strlit("8");
        reveal_strlit("9");
        reveal_strlit("a");
        reveal_strlit("b");
        reveal_strlit("c");
        reveal_strlit("d");
        reveal_strlit("e");
        reveal_strlit("f");
    }
    let text = match nibble {
        0 => "0",
        1 => "1",
        2 => "2",
        3 => "3",
        4 => "4",
        5 => "5",
        6 => "6",
        7 => "7",
        8 => "8",
        9 => "9",
        10 => "a",
        11 => "b",
        12 => "c",
        13 => "d",
        14 => "e",
        _ => "f",
    };
    assert(text@ =~= seq![hex_digit(nibble as int)]);
    text
}

impl ObjectId {
    /// The identifier made of `bytes`.
    pub fn from_bytes(bytes: [u8; 20]) -> (id: ObjectId)
        ensures
            id@ == bytes@,
    {
        ObjectId { bytes }
    }

    /// The identifier whose bytes are all zero, which names no object.
    pub fn zero() -> (id: ObjectId)
        ensures
            id@.len() == 20,
            forall|i: int| 0 <= i < 20 ==> id@[i] == 0,
    {
        ObjectId { bytes: [0u8; 20] }
    }

    /// The identifier as forty lower-case hexadecimal digits.
    pub fn to_hex(&self) -> (text: String)
        ensures
            text@ == hex_of(self@),
            text@.len() == 40,
    {
        let mut text = String::new();
        let mut i: usize = 0;
        while i < 20
            invariant
                i <= 20,
                text@ == hex_of(self@.subrange(0, i as int)),
            decreases 20 - i,
        {
            let byte = self.bytes[i];
            let ghost before = text@;
            text.append(hex_digit_text(byte / 16));
            text.append(hex_digit_text(byte % 16));
            assert(text@ =~= hex_of(self@.subrange(0, i as int + 1))) by {
                let shorter = self@.subrange(0, i as int);
                let longer = self@.subrange(0, i as int + 1);
                assert(before == hex_of(shorter));
                assert forall|k: int| 0 <= k < 2 * (i + 1) implies text@[k] == hex_of(
                    longer,
                )[k] by {
                    if k < 2 * i {
                        assert(text@[k] == before[k]);
                        assert(shorter[k / 2] == longer[k / 2]);
                    } else {
                        assert(longer[k / 2] == byte);
                    }
                }
            }
            i += 1;
        }
        assert(self@.subrange(0, 20) =~= self@);
        text
    }
}

} // verus!
