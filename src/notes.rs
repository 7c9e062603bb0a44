use vstd::prelude::*;
use vstd::string::StringExecFns;

use crate::text::{bracketed, bracketed_string, decimal, decimal_string, push_char};

verus! {

/// `reg[a] = v`
pub open spec fn register_note(a: u16, v: u16) -> Seq<char> {
    seq!['r', 'e', 'g'] + bracketed(decimal(a as nat)) + seq![' ', '=', ' '] + decimal(v as nat)
}

/// `mem[a] = v`
pub open spec fn memory_note(a: u16, v: u16) -> Seq<char> {
    seq!['m', 'e', 'm'] + bracketed(decimal(a as nat)) + seq![' ', '=', ' '] + decimal(v as nat)
}

/// `jump to a`
pub open spec fn jump_note(a: int) -> Seq<char> {
    seq!['j', 'u', 'm', 'p', ' ', 't', 'o', ' '] + decimal(a as nat)
}

/// `return to a`
pub open spec fn return_note(a: int) -> Seq<char> {
    seq!['r', 'e', 't', 'u', 'r', 'n', ' ', 't', 'o', ' '] + decimal(a as nat)
}

/// The character written by `out`, between single quotes.
pub open spec fn char_note(b: u8) -> Seq<char> {
    seq!['\'', b as char, '\'']
}

pub fn register_note_string(a: u16, v: u16) -> (r: String)
    ensures
        r@ == register_note(a, v),
{
    proof {
        reveal_strlit("reg");
        assert("reg"@ =~= seq!['r', 'e', 'g']);
    }
    labelled_pair("reg", a, v)
}

pub fn memory_note_string(a: u16, v: u16) -> (r: String)
    ensures
        r@ == memory_note(a, v),
{
    proof {
        reveal_strlit("mem");
        assert("mem"@ =~= seq!['m', 'e', 'm']);
    }
    labelled_pair("mem", a, v)
}

/// `label[a] = v`
fn labelled_pair(label: &str, a: u16, v: u16) -> (r: String)
    ensures
        r@ == label@ + bracketed(decimal(a as nat)) + seq![' ', '=', ' '] + decimal(v as nat),
{
    proof {
        reveal_strlit(" = ");
        assert(" = "@ =~= seq![' ', '=', ' ']);
    }
    let mut r = String::from_str(label);
    let index = decimal_string(a as usize);
    r.append(bracketed_string(index.as_str()).as_str());
    r.append(" = ");
    r.append(decimal_string(v as usize).as_str());
    assert(r@ =~= label@ + bracketed(decimal(a as nat)) + seq![' ', '=', ' '] + decimal(v as nat));
    r
}

pub fn jump_note_string(a: usize) -> (r: String)
    ensures
        r@ == jump_note(a as int),
{
    proof {
        reveal_strlit("jump to ");
    }
    let mut r = String::from_str("jump to ");
    r.append(decimal_string(a).as_str());
    assert(r@ =~= jump_note(a as int));
    r
}

pub fn return_note_string(a: usize) -> (r: String)
    ensures
        r@ == return_note(a as int),
{
    proof {
        reveal_strlit("return to ");
    }
    let mut r = String::from_str("return to ");
    r.append(decimal_string(a).as_str());
    assert(r@ =~= return_note(a as int));
    r
}

pub fn char_note_string(b: u8) -> (r: String)
    ensures
        r@ == char_note(b),
{
    proof {
        reveal_strlit("'");
    }
    let mut r = String::from_str("'");
    push_char(&mut r, b as char);
    r.append("'");
    assert(r@ =~= char_note(b));
    r
}

} // verus!
