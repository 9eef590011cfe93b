//! The fixed allow-list of HTTP verbs and case-insensitive method resolution.

use vstd::prelude::*;

verus! {

/// The verbs the executor supports. Any other method name is rejected
/// before any network activity.
#[derive(Clone, Copy, PartialEq, Eq, Debug)]
pub enum Method {
    Get,
    Post,
    Put,
    Delete,
    Patch,
}

/// The scalar value of a character after ASCII upper-casing: lower-case
/// ASCII letters move to their upper-case counterpart, everything else is
/// unchanged.
pub open spec fn upper_code(c: char) -> u32 {
    let u = c as u32;
    if 97 <= u && u <= 122 {
        (u - 32) as u32
    } else {
        u
    }
}

/// `s` spells the verb `v` up to ASCII letter case (`v` is one of the
/// canonical all-uppercase verbs, which upper-casing leaves fixed).
pub open spec fn matches_verb(s: Seq<char>, v: Seq<char>) -> bool {
    s.len() == v.len() && forall|i: int| 0 <= i < s.len() ==> upper_code(#[trigger] s[i]) == v[i] as u32
}

/// The verb a method string resolves to, if any: the string is matched
/// case-insensitively against the fixed allow-list.
pub open spec fn method_of(s: Seq<char>) -> Option<Method> {
    if matches_verb(s, "GET"@) {
        Some(Method::Get)
    } else if matches_verb(s, "POST"@) {
        Some(Method::Post)
    } else if matches_verb(s, "PUT"@) {
        Some(Method::Put)
    } else if matches_verb(s, "DELETE"@) {
        Some(Method::Delete)
    } else if matches_verb(s, "PATCH"@) {
        Some(Method::Patch)
    } else {
        None
    }
}

impl Method {
    /// The canonical uppercase verb this method is dispatched as.
    pub open spec fn spec_verb(self) -> Seq<char> {
        match self {
            Method::Get => "GET"@,
            Method::Post => "POST"@,
            Method::Put => "PUT"@,
            Method::Delete => "DELETE"@,
            Method::Patch => "PATCH"@,
        }
    }

    /// The canonical uppercase verb, as handed to the transport.
    pub fn verb(&self) -> (r: &'static str)
        ensures
            r@ == self.spec_verb(),
    {
        match self {
            Method::Get => "GET",
            Method::Post => "POST",
            Method::Put => "PUT",
            Method::Delete => "DELETE",
            Method::Patch => "PATCH",
        }
    }

    /// Resolve a method string against the allow-list, matching
    /// case-insensitively; `None` for every unsupported method.
    pub fn resolve(s: &str) -> (r: Option<Method>)
        ensures
            r == method_of(s@),
    {
        if eq_verb(s, "GET") {
            Some(Method::Get)
        } else if eq_verb(s, "POST") {
            Some(Method::Post)
        } else if eq_verb(s, "PUT") {
            Some(Method::Put)
        } else if eq_verb(s, "DELETE") {
            Some(Method::Delete)
        } else if eq_verb(s, "PATCH") {
            Some(Method::Patch)
        } else {
            None
        }
    }
}

/// Every supported verb is accepted in any ASCII letter case: a method
/// string that spells a verb of the allow-list, letters upper or lower,
/// resolves to exactly that verb.
pub proof fn lemma_supported_method_accepted(s: Seq<char>, m: Method)
    requires
        matches_verb(s, m.spec_verb()),
    ensures
        method_of(s) == Some(m),
{
    reveal_strlit("GET");
    reveal_strlit("POST");
    reveal_strlit("PUT");
    reveal_strlit("DELETE");
    reveal_strlit("PATCH");
    match m {
        Method::Get => {},
        Method::Post => {},
        Method::Put => {
            // "PUT" and "GET" have the same length; they part at the first
            // letter, which no case change can reconcile.
            if matches_verb(s, "GET"@) {
                assert(upper_code(s[0]) == "GET"@[0] as u32);
                assert(upper_code(s[0]) == "PUT"@[0] as u32);
            }
        },
        Method::Delete => {},
        Method::Patch => {},
    }
}

/// A method string that spells no supported verb, in any letter case, is
/// resolved to nothing.
pub proof fn lemma_unsupported_method_rejected(s: Seq<char>)
    requires
        !matches_verb(s, "GET"@),
        !matches_verb(s, "POST"@),
        !matches_verb(s, "PUT"@),
        !matches_verb(s, "DELETE"@),
        !matches_verb(s, "PATCH"@),
    ensures
        method_of(s) is None,
{
}

/// The canonical uppercase verb is a fixed point of the matching: each verb
/// of the allow-list resolves to its own method, so resolution dispatches
/// every accepted spelling as that canonical uppercase verb.
pub proof fn lemma_verb_canonical(m: Method)
    ensures
        matches_verb(m.spec_verb(), m.spec_verb()),
        method_of(m.spec_verb()) == Some(m),
{
    reveal_strlit("GET");
    reveal_strlit("POST");
    reveal_strlit("PUT");
    reveal_strlit("DELETE");
    reveal_strlit("PATCH");
    let v = m.spec_verb();
    assert forall|i: int| 0 <= i < v.len() implies upper_code(#[trigger] v[i]) == v[i] as u32 by {
        assert((v[i] as u32) < 97);
    }
    lemma_supported_method_accepted(v, m);
}

/// Does `s` spell `verb` up to ASCII letter case?
fn eq_verb(s: &str, verb: &str) -> (r: bool)
    ensures
        r == matches_verb(s@, verb@),
{
    let n = s.unicode_len();
    let m = verb.unicode_len();
    if n != m {
        return false;
    }
    let mut i: usize = 0;
    while i < n
        invariant
            n == s@.len(),
            n == verb@.len(),
            i <= n,
            forall|j: int| 0 <= j < i ==> upper_code(#[trigger] s@[j]) == verb@[j] as u32,
        decreases n - i,
    {
        let c = s.get_char(i);
        let v = verb.get_char(i);
        let cu = c as u32;
        let vu = v as u32;
        let up = if 97 <= cu && cu <= 122 {
            cu - 32
        } else {
            cu
        };
        if up != vu {
            assert(upper_code(s@[i as int]) != verb@[i as int] as u32);
            return false;
        }
        i = i + 1;
    }
    true
}

} // verus!
