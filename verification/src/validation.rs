//! Validation of incoming requests and of text taken from them.

use vstd::prelude::*;
use vstd::string::*;

use crate::errors::{AppError, AppErrorView};
use crate::http::Method;
use crate::text::{
    before_char, char_is_control, chars_before, chars_of, contains_string, decimal, is_control,
    parse_unsigned, parse_usize, push_decimal, string_from_chars, strings_view, trim, trim_chars,
};

verus! {

/// Limits on request bodies.
#[derive(Debug)]
pub struct RequestValidator {
    pub max_body_size: usize,
    pub allowed_content_types: Vec<String>,
}

impl Default for RequestValidator {
    /// Bodies of up to 1 MiB, in JSON or form encoding.
    fn default() -> (res: Self)
        ensures
            res.max_body_size == 1048576,
            strings_view(res.allowed_content_types@) == seq![
                "application/json"@,
                "application/x-www-form-urlencoded"@,
            ],
    {
        let mut types: Vec<String> = Vec::new();
        types.push(String::from_str("application/json"));
        types.push(String::from_str("application/x-www-form-urlencoded"));
        assert(strings_view(types@) =~= seq![
            "application/json"@,
            "application/x-www-form-urlencoded"@,
        ]);
        RequestValidator { max_body_size: 1048576, allowed_content_types: types }
    }
}

/// The detail of the error for a body larger than `max` bytes.
pub open spec fn too_large_message(max: usize) -> Seq<char> {
    "Request body too large. Maximum size is "@ + decimal(max as nat) + " bytes"@
}

/// The media type of a `Content-Type` value: the part before any parameters,
/// without surrounding whitespace.
pub open spec fn base_media_type(content_type: Seq<char>) -> Seq<char> {
    trim(before_char(content_type, ';'))
}

/// The detail of the error for a media type that is not accepted.
pub open spec fn type_refused_message(base: Seq<char>) -> Seq<char> {
    "Content-Type '"@ + base + "' not allowed"@
}

/// The outcome of checking the `Content-Length` header: a bad-request error when
/// it reads as a number larger than `max`, success otherwise (also when it is
/// absent or does not read as a number).
pub open spec fn length_check(max: usize, content_length: Option<Seq<char>>) -> Result<(), AppErrorView> {
    match content_length {
        Some(t) => match parse_unsigned(t, usize::MAX as nat) {
            Some(n) => if n > max {
                Err(AppErrorView::BadRequest(too_large_message(max)))
            } else {
                Ok(())
            },
            None => Ok(()),
        },
        None => Ok(()),
    }
}

/// The outcome of checking the `Content-Type` header: `GET` and `DELETE` requests
/// pass, as do requests without the header or with an empty one; otherwise the
/// media type must be one of the accepted ones.
pub open spec fn type_check(
    accepted: Seq<Seq<char>>,
    method: Method,
    content_type: Option<Seq<char>>,
) -> Result<(), AppErrorView> {
    if method == Method::Get || method == Method::Delete {
        Ok(())
    } else {
        let ct = match content_type {
            Some(t) => t,
            None => Seq::empty(),
        };
        if ct.len() == 0 {
            Ok(())
        } else if accepted.contains(base_media_type(ct)) {
            Ok(())
        } else {
            Err(AppErrorView::BadRequest(type_refused_message(base_media_type(ct))))
        }
    }
}

/// Only `GET` and `DELETE` are exempt from the media-type check: for every other
/// method, a non-empty `Content-Type` whose media type is not accepted is refused
/// with a bad-request error naming that media type, and one whose media type is
/// accepted passes; a missing or empty header passes for every method.
pub proof fn lemma_type_check_refuses_unaccepted(
    accepted: Seq<Seq<char>>,
    method: Method,
    ct: Seq<char>,
)
    ensures
        type_check(accepted, Method::Get, Some(ct)) == Ok::<(), AppErrorView>(()),
        type_check(accepted, Method::Delete, Some(ct)) == Ok::<(), AppErrorView>(()),
        type_check(accepted, method, None) == Ok::<(), AppErrorView>(()),
        type_check(accepted, method, Some(Seq::<char>::empty())) == Ok::<(), AppErrorView>(()),
        (method != Method::Get && method != Method::Delete && ct.len() > 0 && !accepted.contains(
            base_media_type(ct),
        )) ==> type_check(accepted, method, Some(ct)) == Err::<(), AppErrorView>(
            AppErrorView::BadRequest(
                "Content-Type '"@ + base_media_type(ct) + "' not allowed"@,
            ),
        ),
        (ct.len() > 0 && accepted.contains(base_media_type(ct))) ==> type_check(
            accepted,
            method,
            Some(ct),
        ) == Ok::<(), AppErrorView>(()),
{
}

/// A body is refused for its length exactly when its `Content-Length` reads as a
/// number above the limit.
pub proof fn lemma_length_check_refuses_exactly_too_large(max: usize, n: nat)
    requires
        n <= usize::MAX,
    ensures
        (length_check(max, Some(decimal(n))) is Err) <==> n > max,
        length_check(max, None) == Ok::<(), AppErrorView>(()),
{
    crate::text::lemma_parse_decimal(n, usize::MAX as nat);
}

/// The abstract content of an optional string.
pub open spec fn opt_view(o: Option<String>) -> Option<Seq<char>> {
    match o {
        Some(s) => Some(s@),
        None => None,
    }
}

/// The abstract content of a check outcome.
pub open spec fn outcome_view(r: Result<(), AppError>) -> Result<(), AppErrorView> {
    match r {
        Ok(()) => Ok(()),
        Err(e) => Err(e@),
    }
}

impl RequestValidator {
    /// The default limits with a body size limit of `max_body_size`.
    pub fn new(max_body_size: usize) -> (res: Self)
        ensures
            res.max_body_size == max_body_size,
            strings_view(res.allowed_content_types@) == seq![
                "application/json"@,
                "application/x-www-form-urlencoded"@,
            ],
    {
        let d = Self::default();
        RequestValidator { max_body_size, allowed_content_types: d.allowed_content_types }
    }

    /// Checks the request's `Content-Length` header.
    pub fn validate_content_length(&self, content_length: Option<String>) -> (res: Result<(), AppError>)
        ensures
            outcome_view(res) == length_check(self.max_body_size, opt_view(content_length)),
    {
        if let Some(t) = &content_length {
            if let Some(n) = parse_usize(t.as_str()) {
                if n > self.max_body_size {
                    let mut msg = String::from_str("Request body too large. Maximum size is ");
                    push_decimal(&mut msg, self.max_body_size as u64);
                    msg.append(" bytes");
                    return Err(AppError::BadRequest(msg));
                }
            }
        }
        Ok(())
    }

    /// Checks the request's `Content-Type` header against the accepted media types.
    pub fn validate_content_type(&self, method: Method, content_type: Option<String>) -> (res: Result<
        (),
        AppError,
    >)
        ensures
            outcome_view(res) == type_check(
                strings_view(self.allowed_content_types@),
                method,
                opt_view(content_type),
            ),
            (method == Method::Get || method == Method::Delete) ==> res is Ok,
            (method != Method::Get && method != Method::Delete && (content_type matches Some(t)
                && t@.len() > 0 && !strings_view(self.allowed_content_types@).contains(
                base_media_type(t@),
            ))) ==> res is Err,
    {
        if method == Method::Get || method == Method::Delete {
            return Ok(());
        }
        let ct = match content_type {
            Some(t) => t,
            None => String::new(),
        };
        if ct.as_str().is_empty() {
            return Ok(());
        }
        let base_chars = trim_chars(&chars_before(&chars_of(ct.as_str()), ';'));
        let base = string_from_chars(&base_chars);
        if !contains_string(&self.allowed_content_types, base.as_str()) {
            let msg = String::from_str("Content-Type '").concat(base.as_str()).concat(
                "' not allowed",
            );
            return Err(AppError::BadRequest(msg));
        }
        Ok(())
    }

    /// Checks the body length first and then the media type of a request.
    pub fn validate(
        &self,
        method: Method,
        content_length: Option<String>,
        content_type: Option<String>,
    ) -> (res: Result<(), AppError>)
        ensures
            outcome_view(res) == match length_check(self.max_body_size, opt_view(content_length)) {
                Err(e) => Err(e),
                Ok(()) => type_check(
                    strings_view(self.allowed_content_types@),
                    method,
                    opt_view(content_type),
                ),
            },
    {
        match self.validate_content_length(content_length) {
            Err(e) => Err(e),
            Ok(()) => self.validate_content_type(method, content_type),
        }
    }
}

// ---------------------------------------------------------------------------
// Sanitizing text
// ---------------------------------------------------------------------------

/// The most characters a sanitized text keeps.
pub const MAX_SANITIZED_CHARS: usize = 10000;

/// Whether sanitizing keeps a character: every character but the control
/// characters, except that newlines and tabs are kept.
pub open spec fn keeps_char(c: char) -> bool {
    !is_control(c) || c == '\n' || c == '\t'
}

/// The characters of `s` that sanitizing keeps, in order.
pub open spec fn kept_chars(s: Seq<char>) -> Seq<char>
    decreases s.len(),
{
    if s.len() == 0 {
        Seq::empty()
    } else if keeps_char(s.last()) {
        kept_chars(s.drop_last()).push(s.last())
    } else {
        kept_chars(s.drop_last())
    }
}

/// At most the first 10000 characters of `s`.
pub open spec fn at_most_limit(s: Seq<char>) -> Seq<char> {
    if s.len() > 10000 {
        s.take(10000)
    } else {
        s
    }
}

/// The sanitized form of `s`: the characters it keeps, at most 10000 of them.
pub open spec fn sanitized(s: Seq<char>) -> Seq<char> {
    at_most_limit(kept_chars(s))
}

/// Keeping characters distributes over concatenation.
pub proof fn lemma_kept_chars_append(a: Seq<char>, b: Seq<char>)
    ensures
        kept_chars(a + b) == kept_chars(a) + kept_chars(b),
    decreases b.len(),
{
    if b.len() == 0 {
        assert(a + b =~= a);
        assert(kept_chars(a) + kept_chars(b) =~= kept_chars(a));
    } else {
        lemma_kept_chars_append(a, b.drop_last());
        assert((a + b).drop_last() =~= a + b.drop_last());
        assert((a + b).last() == b.last());
        if keeps_char(b.last()) {
            assert(kept_chars(a) + kept_chars(b) =~= (kept_chars(a) + kept_chars(b.drop_last())).push(
                b.last(),
            ));
        }
    }
}

/// Every character sanitizing keeps is one it keeps, so keeping them again
/// changes nothing.
pub proof fn lemma_kept_chars_properties(s: Seq<char>)
    ensures
        forall|i: int| 0 <= i < kept_chars(s).len() ==> keeps_char(#[trigger] kept_chars(s)[i]),
        kept_chars(s).len() <= s.len(),
    decreases s.len(),
{
    if s.len() > 0 {
        lemma_kept_chars_properties(s.drop_last());
    }
}

/// Keeping the characters of a text made only of kept characters changes nothing.
pub proof fn lemma_kept_chars_fixed(s: Seq<char>)
    requires
        forall|i: int| 0 <= i < s.len() ==> keeps_char(#[trigger] s[i]),
    ensures
        kept_chars(s) == s,
    decreases s.len(),
{
    if s.len() > 0 {
        assert forall|i: int| 0 <= i < s.drop_last().len() implies keeps_char(
            #[trigger] s.drop_last()[i],
        ) by {
            assert(s.drop_last()[i] == s[i]);
        }
        lemma_kept_chars_fixed(s.drop_last());
        assert(s.drop_last().push(s.last()) =~= s);
    }
}

/// `idx` picks out the characters of `a` from `b`, in order: the `k`-th character
/// of `a` is the character of `b` at `idx[k]`, and the positions increase.
pub open spec fn subsequence_witness(a: Seq<char>, b: Seq<char>, idx: Seq<int>) -> bool {
    &&& idx.len() == a.len()
    &&& forall|k: int| 0 <= k < idx.len() ==> 0 <= #[trigger] idx[k] < b.len() && b[idx[k]] == a[k]
    &&& forall|k: int, l: int| 0 <= k < l < idx.len() ==> #[trigger] idx[k] < #[trigger] idx[l]
}

/// Whether `a` is obtained from `b` by leaving characters out.
pub open spec fn is_subsequence(a: Seq<char>, b: Seq<char>) -> bool {
    exists|idx: Seq<int>| #[trigger] subsequence_witness(a, b, idx)
}

/// The positions in `s` of the characters sanitizing keeps, in order.
pub open spec fn kept_positions(s: Seq<char>) -> Seq<int>
    decreases s.len(),
{
    if s.len() == 0 {
        Seq::empty()
    } else if keeps_char(s.last()) {
        kept_positions(s.drop_last()).push(s.len() - 1)
    } else {
        kept_positions(s.drop_last())
    }
}

/// The kept positions pick the kept characters out of the text.
pub proof fn lemma_kept_positions(s: Seq<char>)
    ensures
        subsequence_witness(kept_chars(s), s, kept_positions(s)),
    decreases s.len(),
{
    if s.len() > 0 {
        let d = s.drop_last();
        lemma_kept_positions(d);
        let w = kept_positions(d);
        let k = kept_chars(d);
        assert forall|j: int| 0 <= j < w.len() implies #[trigger] w[j] < s.len() - 1
            && s[w[j]] == k[j] by {
            assert(d[w[j]] == s[w[j]]);
        }
        if keeps_char(s.last()) {
            let w2 = w.push(s.len() - 1);
            let k2 = k.push(s.last());
            assert forall|j: int| 0 <= j < w2.len() implies 0 <= #[trigger] w2[j] < s.len()
                && s[w2[j]] == k2[j] by {
                if j < w.len() {
                    assert(w2[j] == w[j]);
                    assert(k2[j] == k[j]);
                }
            }
            assert forall|a: int, b: int| 0 <= a < b < w2.len() implies #[trigger] w2[a]
                < #[trigger] w2[b] by {
                assert(w2[a] == w[a]);
                if b < w.len() {
                    assert(w2[b] == w[b]);
                }
            }
        }
    }
}

/// The sanitized form of a text is made of characters of the text, in their
/// order: it is a subsequence of it.
pub proof fn lemma_sanitized_is_subsequence(s: Seq<char>)
    ensures
        is_subsequence(sanitized(s), s),
{
    lemma_kept_positions(s);
    let w = kept_positions(s);
    let k = kept_chars(s);
    if k.len() > 10000 {
        let w2 = w.take(10000);
        let k2 = k.take(10000);
        assert forall|j: int| 0 <= j < w2.len() implies 0 <= #[trigger] w2[j] < s.len()
            && s[w2[j]] == k2[j] by {
            assert(w2[j] == w[j]);
        }
        assert forall|a: int, b: int| 0 <= a < b < w2.len() implies #[trigger] w2[a]
            < #[trigger] w2[b] by {
            assert(w2[a] == w[a] && w2[b] == w[b]);
        }
        assert(subsequence_witness(sanitized(s), s, w2));
    } else {
        assert(subsequence_witness(sanitized(s), s, w));
    }
}

/// Strips the control characters other than newline and tab from `input` and
/// keeps at most its first 10000 remaining characters.
pub fn sanitize_string(input: &str) -> (res: String)
    ensures
        res@ == sanitized(input@),
        res@.len() <= 10000,
        forall|i: int| 0 <= i < res@.len() ==> keeps_char(#[trigger] res@[i]),
        is_subsequence(res@, input@),
        (forall|i: int| 0 <= i < input@.len() ==> !is_control(#[trigger] input@[i])) ==> res@
            == at_most_limit(input@),
{
    let cs = chars_of(input);
    let n = cs.len();
    let mut out: Vec<char> = Vec::new();
    let mut i: usize = 0;
    while i < n && out.len() < MAX_SANITIZED_CHARS
        invariant
            i <= n == cs@.len(),
            out@ == kept_chars(cs@.take(i as int)),
            out@.len() <= 10000,
        decreases n - i,
    {
        let c = cs[i];
        let ghost pre = cs@.take(i as int);
        assert(cs@.take(i as int + 1).drop_last() =~= pre);
        if !char_is_control(c) || c == '\n' || c == '\t' {
            out.push(c);
        }
        i = i + 1;
    }
    proof {
        let pre = cs@.take(i as int);
        let post = cs@.skip(i as int);
        assert(pre + post =~= cs@);
        lemma_kept_chars_append(pre, post);
        lemma_kept_chars_properties(cs@);
        lemma_sanitized_is_subsequence(cs@);
        lemma_sanitize_removes_only_controls(cs@, ' ');
        if i < n {
            assert(out@.len() == 10000);
            assert(kept_chars(cs@).take(10000) =~= out@);
        } else {
            assert(post =~= Seq::<char>::empty());
            assert(kept_chars(cs@) =~= out@);
        }
    }
    string_from_chars(&out)
}

/// Sanitizing removes exactly the control characters other than newline and
/// tab: every other character is kept, so a text without control characters and
/// no longer than 10000 characters is returned unchanged, and one longer than that
/// is cut to its first 10000 characters.
pub proof fn lemma_sanitize_removes_only_controls(s: Seq<char>, c: char)
    ensures
        !is_control(c) ==> keeps_char(c),
        c == '\n' || c == '\t' ==> keeps_char(c),
        (is_control(c) && c != '\n' && c != '\t') ==> !keeps_char(c),
        (forall|i: int| 0 <= i < s.len() ==> !is_control(#[trigger] s[i])) ==> sanitized(s) == (
        if s.len() <= 10000 {
            s
        } else {
            s.take(10000)
        }),
{
    if forall|i: int| 0 <= i < s.len() ==> !is_control(#[trigger] s[i]) {
        assert forall|i: int| 0 <= i < s.len() implies keeps_char(#[trigger] s[i]) by {
            assert(!is_control(s[i]));
        }
        lemma_kept_chars_fixed(s);
    }
}

/// Sanitizing is idempotent: a sanitized text is left as it is.
pub proof fn lemma_sanitize_idempotent(s: Seq<char>)
    ensures
        sanitized(sanitized(s)) == sanitized(s),
{
    lemma_kept_chars_properties(s);
    let k = kept_chars(s);
    let t = sanitized(s);
    assert forall|i: int| 0 <= i < t.len() implies keeps_char(#[trigger] t[i]) by {
        assert(t[i] == k[i]);
    }
    lemma_kept_chars_fixed(t);
}

/// Whether `id` can name a stored item: only positive ids do.
pub fn is_valid_id(id: i64) -> (res: bool)
    ensures
        res == (id > 0),
{
    id > 0
}

} // verus!
