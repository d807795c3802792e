//! The JSON wire format of the service: every non-health body is JSON, and
//! a `Sample` serializes as `{"name": "<text>"}`.  The encoding is stated
//! character by character: a quote or backslash is escaped with a
//! backslash, the control characters with a short form take it, the rest
//! of the control range takes the `\u00XX` form with lower-case hex
//! digits, and every other character stands as itself.

use vstd::prelude::*;

use crate::model::Sample;
use crate::table::names_of;

verus! {

/// The lower-case hex digit for a value below sixteen.
pub open spec fn hex_digit(v: int) -> char {
    if v == 0 {
        '0'
    } else if v == 1 {
        '1'
    } else if v == 2 {
        '2'
    } else if v == 3 {
        '3'
    } else if v == 4 {
        '4'
    } else if v == 5 {
        '5'
    } else if v == 6 {
        '6'
    } else if v == 7 {
        '7'
    } else if v == 8 {
        '8'
    } else if v == 9 {
        '9'
    } else if v == 10 {
        'a'
    } else if v == 11 {
        'b'
    } else if v == 12 {
        'c'
    } else if v == 13 {
        'd'
    } else if v == 14 {
        'e'
    } else {
        'f'
    }
}

/// What one character contributes to a JSON string body.
pub open spec fn escape_char(c: char) -> Seq<char> {
    let v = c as u32 as int;
    if v == 0x22 {
        seq!['\\', '"']
    } else if v == 0x5c {
        seq!['\\', '\\']
    } else if v == 0x08 {
        seq!['\\', 'b']
    } else if v == 0x09 {
        seq!['\\', 't']
    } else if v == 0x0a {
        seq!['\\', 'n']
    } else if v == 0x0c {
        seq!['\\', 'f']
    } else if v == 0x0d {
        seq!['\\', 'r']
    } else if v < 0x20 {
        seq!['\\', 'u', '0', '0', hex_digit(v / 16), hex_digit(v % 16)]
    } else {
        seq![c]
    }
}

/// The escaped body of a JSON string, character by character.
pub open spec fn escape_seq(s: Seq<char>) -> Seq<char>
    decreases s.len(),
{
    if s.len() == 0 {
        Seq::empty()
    } else {
        escape_char(s[0]) + escape_seq(s.drop_first())
    }
}

/// A JSON string: the escaped text between two quotes.
pub open spec fn json_string(s: Seq<char>) -> Seq<char> {
    seq!['"'] + escape_seq(s) + seq!['"']
}

/// The JSON object a `Sample` serializes to.
pub open spec fn sample_object(name: Seq<char>) -> Seq<char> {
    "{\"name\":"@ + json_string(name) + "}"@
}

/// The comma-separated objects inside a JSON array of samples.
pub open spec fn sample_items(names: Seq<Seq<char>>) -> Seq<char>
    decreases names.len(),
{
    if names.len() == 0 {
        Seq::empty()
    } else if names.len() == 1 {
        sample_object(names[0])
    } else {
        sample_object(names[0]) + seq![','] + sample_items(names.drop_first())
    }
}

/// The JSON array of a sequence of samples.
pub open spec fn sample_array(names: Seq<Seq<char>>) -> Seq<char> {
    seq!['['] + sample_items(names) + seq![']']
}

/// Escaping one more character extends the escaped body on the right.
pub proof fn lemma_escape_push(s: Seq<char>, c: char)
    ensures
        escape_seq(s.push(c)) == escape_seq(s) + escape_char(c),
    decreases s.len(),
{
    if s.len() == 0 {
        assert(s.push(c).drop_first() =~= s);
        assert(escape_seq(s.push(c)) =~= escape_seq(s) + escape_char(c));
    } else {
        assert(s.push(c).drop_first() =~= s.drop_first().push(c));
        lemma_escape_push(s.drop_first(), c);
        assert(escape_seq(s.push(c)) =~= escape_seq(s) + escape_char(c));
    }
}

/// Listing one more sample appends its object, behind a comma unless it
/// is the first.
pub proof fn lemma_items_push(names: Seq<Seq<char>>, name: Seq<char>)
    ensures
        names.len() == 0 ==> sample_items(names.push(name)) == sample_object(name),
        names.len() > 0 ==> sample_items(names.push(name)) == sample_items(names) + seq![',']
            + sample_object(name),
    decreases names.len(),
{
    if names.len() == 0 {
        assert(sample_items(names.push(name)) =~= sample_object(name));
    } else {
        assert(names.push(name).drop_first() =~= names.drop_first().push(name));
        lemma_items_push(names.drop_first(), name);
        if names.len() == 1 {
            assert(sample_items(names.push(name)) =~= sample_items(names) + seq![',']
                + sample_object(name));
        } else {
            assert(sample_items(names.push(name)) =~= sample_items(names) + seq![',']
                + sample_object(name));
        }
    }
}

/// The listing body for an empty table is the empty JSON array.
pub proof fn lemma_empty_array()
    ensures
        sample_array(Seq::<Seq<char>>::empty()) == "[]"@,
{
    reveal_strlit("[]");
    assert(sample_array(Seq::<Seq<char>>::empty()) =~= "[]"@);
}

/// The lower-case hex digit for a value below sixteen, as text.
fn hex_digit_str(v: u8) -> (r: &'static str)
    requires
        v < 16,
    ensures
        r@ == seq![hex_digit(v as int)],
{
    if v == 0 {
        proof {
            reveal_strlit("0");
            assert("0"@ =~= seq![hex_digit(0)]);
        }
        "0"
    } else if v == 1 {
        proof {
            reveal_strlit("1");
            assert("1"@ =~= seq![hex_digit(1)]);
        }
        "1"
    } else if v == 2 {
        proof {
            reveal_strlit("2");
            assert("2"@ =~= seq![hex_digit(2)]);
        }
        "2"
    } else if v == 3 {
        proof {
            reveal_strlit("3");
            assert("3"@ =~= seq![hex_digit(3)]);
        }
        "3"
    } else if v == 4 {
        proof {
            reveal_strlit("4");
            assert("4"@ =~= seq![hex_digit(4)]);
        }
        "4"
    } else if v == 5 {
        proof {
            reveal_strlit("5");
            assert("5"@ =~= seq![hex_digit(5)]);
        }
        "5"
    } else if v == 6 {
        proof {
            reveal_strlit("6");
            assert("6"@ =~= seq![hex_digit(6)]);
        }
        "6"
    } else if v == 7 {
        proof {
            reveal_strlit("7");
            assert("7"@ =~= seq![hex_digit(7)]);
        }
        "7"
    } else if v == 8 {
        proof {
            reveal_strlit("8");
            assert("8"@ =~= seq![hex_digit(8)]);
        }
        "8"
    } else if v == 9 {
        proof {
            reveal_strlit("9");
            assert("9"@ =~= seq![hex_digit(9)]);
        }
        "9"
    } else if v == 10 {
        proof {
            reveal_strlit("a");
            assert("a"@ =~= seq![hex_digit(10)]);
        }
        "a"
    } else if v == 11 {
        proof {
            reveal_strlit("b");
            assert("b"@ =~= seq![hex_digit(11)]);
        }
        "b"
    } else if v == 12 {
        proof {
            reveal_strlit("c");
            assert("c"@ =~= seq![hex_digit(12)]);
        }
        "c"
    } else if v == 13 {
        proof {
            reveal_strlit("d");
            assert("d"@ =~= seq![hex_digit(13)]);
        }
        "d"
    } else if v == 14 {
        proof {
            reveal_strlit("e");
            assert("e"@ =~= seq![hex_digit(14)]);
        }
        "e"
    } else {
        proof {
            reveal_strlit("f");
            assert("f"@ =~= seq![hex_digit(15)]);
        }
        "f"
    }
}

/// Encode text as a JSON string, quotes and escapes included.
pub fn encode_json_string(s: &str) -> (r: String)
    ensures
        r@ == json_string(s@),
{
    let n = s.unicode_len();
    let mut out = String::from_str("\"");
    proof {
        reveal_strlit("\"");
        assert(out@ =~= seq!['"'] + escape_seq(s@.take(0)));
    }
    for i in 0..n
        invariant
            n == s@.len(),
            out@ == seq!['"'] + escape_seq(s@.take(i as int)),
    {
        let c = s.get_char(i);
        let v: u32 = c as u32;
        if v == 0x22 {
            out.append("\\\"");
            proof {
                reveal_strlit("\\\"");
                assert("\\\""@ =~= escape_char(c));
            }
        } else if v == 0x5c {
            out.append("\\\\");
            proof {
                reveal_strlit("\\\\");
                assert("\\\\"@ =~= escape_char(c));
            }
        } else if v == 0x08 {
            out.append("\\b");
            proof {
                reveal_strlit("\\b");
                assert("\\b"@ =~= escape_char(c));
            }
        } else if v == 0x09 {
            out.append("\\t");
            proof {
                reveal_strlit("\\t");
                assert("\\t"@ =~= escape_char(c));
            }
        } else if v == 0x0a {
            out.append("\\n");
            proof {
                reveal_strlit("\\n");
                assert("\\n"@ =~= escape_char(c));
            }
        } else if v == 0x0c {
            out.append("\\f");
            proof {
                reveal_strlit("\\f");
                assert("\\f"@ =~= escape_char(c));
            }
        } else if v == 0x0d {
            out.append("\\r");
            proof {
                reveal_strlit("\\r");
                assert("\\r"@ =~= escape_char(c));
            }
        } else if v < 0x20 {
            out.append("\\u00");
            let hi: u8 = (v / 16) as u8;
            let lo: u8 = (v % 16) as u8;
            out.append(hex_digit_str(hi));
            out.append(hex_digit_str(lo));
            proof {
                reveal_strlit("\\u00");
                assert("\\u00"@ + seq![hex_digit(hi as int)] + seq![hex_digit(lo as int)]
                    =~= escape_char(c));
            }
        } else {
            let piece = s.substring_char(i, i + 1);
            proof {
                assert(piece@ =~= escape_char(c));
            }
            out.append(piece);
        }
        proof {
            assert(s@.take(i + 1) =~= s@.take(i as int).push(c));
            lemma_escape_push(s@.take(i as int), c);
            assert(out@ =~= seq!['"'] + escape_seq(s@.take(i + 1)));
        }
    }
    out.append("\"");
    proof {
        reveal_strlit("\"");
        assert(s@.take(n as int) =~= s@);
        assert(out@ =~= json_string(s@));
    }
    out
}

/// Encode one sample as its JSON object.
pub fn encode_sample(s: &Sample) -> (r: String)
    ensures
        r@ == sample_object(s@),
{
    let mut out = String::from_str("{\"name\":");
    let quoted = encode_json_string(s.name.as_str());
    out.append(quoted.as_str());
    out.append("}");
    proof {
        assert(out@ =~= sample_object(s@));
    }
    out
}

/// Encode a sequence of samples as a JSON array of their objects.
pub fn encode_samples(v: &Vec<Sample>) -> (r: String)
    ensures
        r@ == sample_array(names_of(v@)),
{
    let n = v.len();
    let mut out = String::from_str("[");
    proof {
        reveal_strlit("[");
        assert(names_of(v@).take(0) =~= Seq::<Seq<char>>::empty());
        assert(out@ =~= seq!['['] + sample_items(names_of(v@).take(0)));
    }
    for i in 0..n
        invariant
            n == v@.len(),
            out@ == seq!['['] + sample_items(names_of(v@).take(i as int)),
    {
        if i > 0 {
            out.append(",");
            proof {
                reveal_strlit(",");
            }
        }
        let piece = encode_sample(&v[i]);
        out.append(piece.as_str());
        proof {
            assert(names_of(v@)[i as int] == v@[i as int]@);
            assert(names_of(v@).take(i + 1) =~= names_of(v@).take(i as int).push(v@[i as int]@));
            lemma_items_push(names_of(v@).take(i as int), v@[i as int]@);
            assert(out@ =~= seq!['['] + sample_items(names_of(v@).take(i + 1)));
        }
    }
    out.append("]");
    proof {
        reveal_strlit("]");
        assert(names_of(v@).take(n as int) =~= names_of(v@));
        assert(out@ =~= sample_array(names_of(v@)));
    }
    out
}

} // verus!
