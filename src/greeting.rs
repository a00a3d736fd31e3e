use vstd::prelude::*;
use vstd::string::StringExecFns;
use vstd::string::StrSliceExecFns;

verus! {

/// The message returned when a name holds a space.
pub open spec fn space_error() -> Seq<char> {
    "Name should not contains spaces"@
}

/// What the greeting command answers for `name`.
pub open spec fn greeting_of(name: Seq<char>) -> Result<Seq<char>, Seq<char>> {
    if name.contains(' ') {
        Err(space_error())
    } else {
        Ok("Hello, "@ + name)
    }
}

/// Whether `s` holds a space, found by walking its characters.
fn has_space(s: &str) -> (r: bool)
    ensures
        r == s@.contains(' '),
{
    let n = s.unicode_len();
    let mut i: usize = 0;
    while i < n
        invariant
            n == s@.len(),
            i <= n,
            forall|j: int| 0 <= j < i ==> s@[j] != ' ',
        decreases n - i,
    {
        if s.get_char(i) == ' ' {
            return true;
        }
        i = i + 1;
    }
    false
}

/// Greets `name`, refusing a name that holds a space.
pub fn hello(name: &str) -> (r: Result<String, String>)
    ensures
        r.is_ok() == !name@.contains(' '),
        r matches Ok(g) ==> greeting_of(name@) == Ok::<Seq<char>, Seq<char>>(g@),
        r matches Err(e) ==> greeting_of(name@) == Err::<Seq<char>, Seq<char>>(e@),
{
    if has_space(name) {
        Err(String::from_str("Name should not contains spaces"))
    } else {
        let mut g = String::from_str("Hello, ");
        g.append(name);
        Ok(g)
    }
}

} // verus!
