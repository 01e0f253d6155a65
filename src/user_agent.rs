use vstd::prelude::*;

verus! {

/// `needle` occurs in `hay` starting at position `i`.
pub open spec fn occurs_at(hay: Seq<char>, needle: Seq<char>, i: int) -> bool {
    &&& 0 <= i
    &&& i + needle.len() <= hay.len()
    &&& forall|m: int| 0 <= m < needle.len() ==> hay[i + m] == needle[m]
}

pub open spec fn text_contains(hay: Seq<char>, needle: Seq<char>) -> bool {
    exists|i: int| occurs_at(hay, needle, i)
}

/// Whether `needle` occurs in `hay`.
pub fn contains_text(hay: &str, needle: &str) -> (r: bool)
    ensures
        r == text_contains(hay@, needle@),
{
    let h = hay.unicode_len();
    let n = needle.unicode_len();
    if n > h {
        return false;
    }
    let mut i: usize = 0;
    while i <= h - n
        invariant
            h == hay@.len(),
            n == needle@.len(),
            n <= h,
            forall|k: int| 0 <= k < i ==> !occurs_at(hay@, needle@, k),
        decreases h - n + 1 - i,
    {
        let mut j: usize = 0;
        while j < n && hay.get_char(i + j) == needle.get_char(j)
            invariant
                h == hay@.len(),
                n == needle@.len(),
                i + n <= h,
                j <= n,
                forall|m: int| 0 <= m < j ==> hay@[i + m] == needle@[m],
            decreases n - j,
        {
            j = j + 1;
        }
        if j == n {
            assert(occurs_at(hay@, needle@, i as int));
            return true;
        }
        assert(hay@[i + j] != needle@[j as int]);
        i = i + 1;
    }
    false
}

/// The identifiers that mark a user agent as a browser.
pub open spec fn browser_names() -> Seq<Seq<char>> {
    seq!["Chrome"@, "Firefox"@, "Safari"@, "Edge"@, "Opera"@]
}

pub open spec fn is_browser_agent(user_agent: Seq<char>) -> bool {
    exists|k: int| 0 <= k < browser_names().len() && text_contains(user_agent, #[trigger] browser_names()[k])
}

/// Whether the user agent names one of the common browsers; browsers also get
/// the refresh token as an HTTP-only cookie.
pub fn is_browser(user_agent: &str) -> (r: bool)
    ensures
        r == is_browser_agent(user_agent@),
{
    let names = ["Chrome", "Firefox", "Safari", "Edge", "Opera"];
    let mut k: usize = 0;
    while k < 5
        invariant
            names@ == seq!["Chrome", "Firefox", "Safari", "Edge", "Opera"],
            forall|q: int| 0 <= q < k ==> !text_contains(user_agent@, #[trigger] browser_names()[q]),
        decreases 5 - k,
    {
        if contains_text(user_agent, names[k]) {
            assert(text_contains(user_agent@, browser_names()[k as int]));
            return true;
        }
        k = k + 1;
    }
    false
}

} // verus!
