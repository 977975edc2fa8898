use vstd::prelude::*;

verus! {

/// Value of one hexadecimal digit, or -1 for any other character.
pub open spec fn hex_digit_value(c: char) -> int {
    let u = c as u32;
    if '0' as u32 <= u && u <= '9' as u32 {
        u - '0' as u32
    } else if 'a' as u32 <= u && u <= 'f' as u32 {
        u - 'a' as u32 + 10
    } else if 'A' as u32 <= u && u <= 'F' as u32 {
        u - 'A' as u32 + 10
    } else {
        -1
    }
}

pub open spec fn is_hex_digit(c: char) -> bool {
    hex_digit_value(c) >= 0
}

/// The canonical text of a document identifier: exactly 24 hexadecimal
/// digits, in either case.
pub open spec fn is_object_id_text(s: Seq<char>) -> bool {
    &&& s.len() == 24
    &&& forall|i: int| 0 <= i < s.len() ==> #[trigger] is_hex_digit(s[i])
}

/// The twelve bytes that 24 hexadecimal digits stand for, two digits a byte,
/// high digit first.
pub open spec fn object_id_bytes(s: Seq<char>) -> Seq<u8> {
    Seq::new(12, |i: int| (hex_digit_value(s[2 * i]) * 16 + hex_digit_value(s[2 * i + 1])) as u8)
}

/// Lower-case hexadecimal digit for a value below 16.
pub open spec fn lower_hex_digit(d: int) -> char {
    if d < 10 {
        (('0' as u32) + d) as char
    } else {
        (('a' as u32) + d - 10) as char
    }
}

/// Lower-case hexadecimal text of a byte sequence, two digits a byte.
pub open spec fn lower_hex(b: Seq<u8>) -> Seq<char> {
    Seq::new(2 * b.len(), |i: int|
        if i % 2 == 0 {
            lower_hex_digit(b[i / 2] as int / 16)
        } else {
            lower_hex_digit(b[i / 2] as int % 16)
        })
}

/// A twelve-byte document identifier.
#[derive(Clone, Copy, Debug, PartialEq, Eq)]
pub struct RecordId {
    pub bytes: [u8; 12],
}

#[verifier::external_type_specification]
#[verifier::external_body]
pub struct ExOidError(mongodb::bson::oid::Error);

/// Relies on bson's `ObjectId::parse_str`: it hex-decodes the text (either
/// case) and succeeds exactly when that gives twelve bytes, which it returns.
#[verifier::external_body]
fn parse_object_id(s: &str) -> (r: Result<[u8; 12], mongodb::bson::oid::Error>)
    ensures
        r is Ok <==> is_object_id_text(s@),
        r is Ok ==> r->Ok_0@ == object_id_bytes(s@),
{
    mongodb::bson::oid::ObjectId::parse_str(s).map(|o| o.bytes())
}

impl RecordId {
    /// Parses the 24-digit hexadecimal text of an identifier.
    pub fn parse(s: &str) -> (r: Option<RecordId>)
        ensures
            r is Some <==> is_object_id_text(s@),
            r is Some ==> r->Some_0.bytes@ == object_id_bytes(s@),
    {
        match parse_object_id(s) {
            Ok(bytes) => Some(RecordId { bytes }),
            Err(_) => None,
        }
    }

    /// The identifier as 24 lower-case hexadecimal digits.
    pub fn to_hex(&self) -> (r: String)
        ensures
            r@ == lower_hex(self.bytes@),
    {
        let mut out = String::new();
        let mut i: usize = 0;
        while i < 12
            invariant
                i <= 12,
                out@ == lower_hex(self.bytes@.subrange(0, i as int)),
            decreases 12 - i,
        {
            let b = self.bytes[i];
            out.append(hex_digit_str(b / 16));
            out.append(hex_digit_str(b % 16));
            proof {
                let prefix = self.bytes@.subrange(0, i as int + 1);
                assert(prefix.subrange(0, i as int) =~= self.bytes@.subrange(0, i as int));
                assert(lower_hex(prefix) =~= lower_hex(self.bytes@.subrange(0, i as int)) + seq![
                    lower_hex_digit(b as int / 16),
                    lower_hex_digit(b as int % 16),
                ]);
            }
            i = i + 1;
        }
        assert(self.bytes@.subrange(0, 12) =~= self.bytes@);
        out
    }
}

/// The one-character text of a hexadecimal digit.
fn hex_digit_str(d: u8) -> (r: &'static str)
    requires
        d < 16,
    ensures
        r@ == seq![lower_hex_digit(d as int)],
{
    proof {
        reveal_strlit("0");
        reveal_strlit("1");
        reveal_strlit("2");
        reveal_strlit("3");
        reveal_strlit("4");
        reveal_strlit("5");
        reveal_strlit("6");
        reveal_strlit("7");
        reveal_strlit("8");
        reveal_strlit("9");
        reveal_strlit("a");
        reveal_strlit("b");
        reveal_strlit("c");
        reveal_strlit("d");
        reveal_strlit("e");
        reveal_strlit("f");
    }
    let r = match d {
        0 => "0",
        1 => "1",
        2 => "2",
        3 => "3",
        4 => "4",
        5 => "5",
        6 => "6",
        7 => "7",
        8 => "8",
        9 => "9",
        10 => "a",
        11 => "b",
        12 => "c",
        13 => "d",
        14 => "e",
        _ => "f",
    };
    assert(r@ =~= seq![lower_hex_digit(d as int)]);
    r
}

} // verus!
