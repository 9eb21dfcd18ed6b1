use vstd::prelude::*;

verus! {

/// Characters that are legal in a file name but mean something else in an
/// instance name.
pub open spec fn is_reserved(c: char) -> bool {
    c == '@' || c == '_'
}

/// The instance-name character that stands for `c`: `@` becomes `|`, `_`
/// becomes `:`, and every other character is kept.
pub open spec fn instance_char(c: char) -> char {
    if c == '@' {
        '|'
    } else if c == '_' {
        ':'
    } else {
        c
    }
}

/// The instance name for file name `s`, one character for one character.
pub open spec fn sanitized(s: Seq<char>) -> Seq<char> {
    s.map_values(|c: char| instance_char(c))
}

/// The substitution table for reserved characters, applied to one character.
pub fn map_reserved_char(c: char) -> (r: char)
    ensures
        r == instance_char(c),
{
    if c == '@' {
        '|'
    } else if c == '_' {
        ':'
    } else {
        c
    }
}

/// Relies on String::push: appends the character at the end.
#[verifier::external_body]
fn push_char(s: &mut String, c: char)
    ensures
        final(s)@ == old(s)@.push(c),
{
    s.push(c)
}

/// Turns a file or directory name into a legal instance name by replacing
/// each reserved character by its counterpart.
pub fn sanitize_instance_name(name: &str) -> (r: String)
    ensures
        r@ == sanitized(name@),
        r@.len() == name@.len(),
        (forall|i: int| 0 <= i < name@.len() ==> !is_reserved(#[trigger] name@[i])) ==> r@
            == name@,
{
    let mut out = String::new();
    for c in it: name.chars()
        invariant
            it.seq() == name@,
            out@ == sanitized(it.seq().take(it.index() as int)),
    {
        proof {
            assert(it.seq().take(it.index() + 1) =~= it.seq().take(it.index() as int).push(c));
        }
        push_char(&mut out, map_reserved_char(c));
        proof {
            assert(out@ =~= sanitized(it.seq().take(it.index() + 1)));
        }
    }
    proof {
        assert(name@.take(name@.len() as int) =~= name@);
        if forall|i: int| 0 <= i < name@.len() ==> !is_reserved(#[trigger] name@[i]) {
            assert(sanitized(name@) =~= name@);
        }
    }
    out
}

} // verus!
