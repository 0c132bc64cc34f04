//! The identifiers under which requests are made.

use crate::text::{remove_char, trim, trimmed, without_char};
use crate::message::str_option;
use vstd::prelude::*;
use vstd::string::*;

verus! {

/// A digit of a hexadecimal number, in lower case.
pub open spec fn hex_digit(c: char) -> bool {
    '0' <= c <= '9' || 'a' <= c <= 'f'
}

/// Whether a dash stands at this place of a UUID.
pub open spec fn dash_place(i: int) -> bool {
    i == 8 || i == 13 || i == 18 || i == 23
}

/// A random UUID in words: 32 hexadecimal digits in lower case, with dashes
/// after the first 8, 12, 16 and 20, and the marks of its version and variant.
pub open spec fn uuid_form(s: Seq<char>) -> bool {
    &&& s.len() == 36
    &&& forall|i: int|
        0 <= i < 36 ==> if dash_place(i) {
            #[trigger] s[i] == '-'
        } else {
            hex_digit(s[i])
        }
    &&& s[14] == '4'
    &&& s[19] == '8' || s[19] == '9' || s[19] == 'a' || s[19] == 'b'
}

/// `uuid::Uuid::new_v4` and the `Display` of what it gives: a random UUID of
/// version 4 in its hyphenated form, in lower case. Which one it is depends on
/// chance.
#[verifier::external_body]
pub(crate) fn new_uuid() -> (r: String)
    ensures
        uuid_form(r@),
{
    uuid::Uuid::new_v4().to_string()
}

/// A new identifier for a session or a request.
pub fn new_identifier() -> (id: String)
    ensures
        uuid_form(id@),
{
    new_uuid()
}

/// The identifier of the machine, and whether it is a new one, which is then
/// to be stored.
#[derive(Debug)]
pub struct MachineId {
    pub id: String,
    pub created: bool,
}

/// The identifier that was stored, without space around it, where it is not
/// blank.
pub open spec fn stored_id(stored: Option<Seq<char>>) -> Option<Seq<char>> {
    match stored {
        Some(text) if trimmed(text).len() > 0 => Some(trimmed(text)),
        _ => None,
    }
}

/// The identifier of the machine: the one that was stored, or a new one.
pub fn get_or_create_machine_id(stored: Option<&str>) -> (machine: MachineId)
    ensures
        match stored_id(str_option(stored)) {
            Some(id) => machine.id@ == id && !machine.created,
            None => machine.created && machine.id@.len() == 32 && forall|i: int|
                0 <= i < 32 ==> hex_digit(#[trigger] machine.id@[i]),
        },
{
    match stored {
        Some(text) => {
            let id = trim(text);
            if id.unicode_len() > 0 {
                return MachineId { id: id.to_owned(), created: false };
            }
        },
        None => {},
    }
    let uuid = new_uuid();
    proof {
        law_machine_ids_are_digits(uuid@);
    }
    machine_id_from(uuid.as_str())
}

/// The identifier of a machine that is made of another one, without its
/// dashes: of a UUID, its digits.
pub fn machine_id_from(uuid: &str) -> (machine: MachineId)
    ensures
        machine.created,
        machine.id@ == without_char(uuid@, '-'),
{
    MachineId { id: remove_char(uuid, '-'), created: true }
}

/// What is left of two texts without a character is left of both together.
proof fn lemma_without_char_add(a: Seq<char>, b: Seq<char>, c: char)
    ensures
        without_char(a + b, c) == without_char(a, c) + without_char(b, c),
    decreases b.len(),
{
    reveal(Seq::filter);
    if b.len() == 0 {
        assert(a + b =~= a);
        assert(without_char(a, c) + without_char(b, c) =~= without_char(a, c));
    } else {
        assert((a + b).drop_last() =~= a + b.drop_last());
        lemma_without_char_add(a, b.drop_last(), c);
        assert(without_char(a + b, c) =~= without_char(a, c) + without_char(b, c));
    }
}

/// A text without the character is kept.
proof fn lemma_without_char_same(a: Seq<char>, c: char)
    requires
        forall|i: int| 0 <= i < a.len() ==> a[i] != c,
    ensures
        without_char(a, c) == a,
    decreases a.len(),
{
    reveal(Seq::filter);
    if a.len() > 0 {
        lemma_without_char_same(a.drop_last(), c);
        assert(a.drop_last().push(a.last()) =~= a);
    }
}

/// Without its dashes, a UUID is 32 hexadecimal digits.
pub proof fn law_machine_ids_are_digits(s: Seq<char>)
    requires
        uuid_form(s),
    ensures
        without_char(s, '-').len() == 32,
        forall|i: int| 0 <= i < 32 ==> hex_digit(#[trigger] without_char(s, '-')[i]),
{
    let dash = seq!['-'];
    let a = s.subrange(0, 8);
    let b = s.subrange(9, 13);
    let c = s.subrange(14, 18);
    let d = s.subrange(19, 23);
    let e = s.subrange(24, 36);
    assert(s =~= a + dash + b + dash + c + dash + d + dash + e);
    assert forall|i: int| 0 <= i < a.len() implies hex_digit(#[trigger] a[i]) by {
        assert(a[i] == s[i]);
    }
    assert forall|i: int| 0 <= i < b.len() implies hex_digit(#[trigger] b[i]) by {
        assert(b[i] == s[i + 9]);
    }
    assert forall|i: int| 0 <= i < c.len() implies hex_digit(#[trigger] c[i]) by {
        assert(c[i] == s[i + 14]);
    }
    assert forall|i: int| 0 <= i < d.len() implies hex_digit(#[trigger] d[i]) by {
        assert(d[i] == s[i + 19]);
    }
    assert forall|i: int| 0 <= i < e.len() implies hex_digit(#[trigger] e[i]) by {
        assert(e[i] == s[i + 24]);
    }
    lemma_without_char_same(a, '-');
    lemma_without_char_same(b, '-');
    lemma_without_char_same(c, '-');
    lemma_without_char_same(d, '-');
    lemma_without_char_same(e, '-');
    assert(without_char(dash, '-') =~= Seq::<char>::empty()) by {
        reveal(Seq::filter);
        assert(dash.drop_last() =~= Seq::<char>::empty());
    }
    let ab = a + dash + b;
    let abc = ab + dash + c;
    let abcd = abc + dash + d;
    lemma_without_char_add(a, dash, '-');
    lemma_without_char_add(a + dash, b, '-');
    lemma_without_char_add(ab, dash, '-');
    lemma_without_char_add(ab + dash, c, '-');
    lemma_without_char_add(abc, dash, '-');
    lemma_without_char_add(abc + dash, d, '-');
    lemma_without_char_add(abcd, dash, '-');
    lemma_without_char_add(abcd + dash, e, '-');
    let digits = a + b + c + d + e;
    assert(without_char(s, '-') =~= digits);
}

/// The identifier that was stored counts, without the space around it, wherever
/// it has anything but space.
pub proof fn law_stored_ids_count(text: Seq<char>)
    ensures
        (exists|i: int| 0 <= i < text.len() && !crate::text::white_space(#[trigger] text[i]))
            ==> stored_id(Some(text)) == Some(trimmed(text)),
        (forall|i: int| 0 <= i < text.len() ==> crate::text::white_space(#[trigger] text[i]))
            ==> stored_id(Some(text)) is None,
        stored_id(None) is None,
{
    crate::text::law_blank_is_all_white_space(text);
}

/// An identifier of a machine is made of the other's characters without its
/// dashes, in their order.
pub proof fn law_dashes_are_taken_out(first: Seq<char>, second: Seq<char>)
    ensures
        !first.contains('-') ==> without_char(first, '-') == first,
        without_char(first + second, '-') == without_char(first, '-') + without_char(second, '-'),
        without_char(seq!['-'], '-').len() == 0,
{
    lemma_without_char_add(first, second, '-');
    if !first.contains('-') {
        assert forall|i: int| 0 <= i < first.len() implies first[i] != '-' by {
            assert(first.contains(first[i]));
        }
        lemma_without_char_same(first, '-');
    }
    let dash = seq!['-'];
    assert(without_char(dash, '-') =~= Seq::<char>::empty()) by {
        reveal(Seq::filter);
        assert(dash.drop_last() =~= Seq::<char>::empty());
        assert(without_char(dash.drop_last(), '-') =~= Seq::<char>::empty());
    }
}

} // verus!
