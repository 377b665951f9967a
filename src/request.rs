//! The request line of the word service: `METHOD RESOURCE ...`.

use vstd::prelude::*;

verus! {

/// A request method the service knows.
#[derive(Clone, Copy, Debug, PartialEq, Eq, Structural)]
pub enum Method {
    Get,
    Options,
    Head,
}

/// A parsed request line.
#[derive(Clone, Debug)]
pub struct Request {
    pub method: Method,
    pub resource: Vec<u8>,
}

/// Why a request line was refused.
#[derive(Clone, Copy, Debug, PartialEq, Eq, Structural)]
pub enum RequestError {
    /// The line holds fewer than two words.
    MissingField,
    /// The first word is not a known method.
    UnknownMethod,
}

/// What the service answers.
#[derive(Clone, Copy, Debug, PartialEq, Eq, Structural)]
pub enum Response {
    /// Allow cross-origin requests.
    Cors,
    /// Send a random word.
    Word,
    /// The resource does not exist.
    NotFound,
}

/// ASCII whitespace: space, tab, line feed, form feed, carriage return.
pub open spec fn is_space(b: u8) -> bool {
    b == 32 || b == 9 || b == 10 || b == 12 || b == 13
}

/// The first position from `i` on that holds no whitespace (or the end).
pub open spec fn skip_spaces(s: Seq<u8>, i: int) -> int
    decreases s.len() - i,
{
    if i < 0 || i >= s.len() {
        s.len() as int
    } else if is_space(s[i]) {
        skip_spaces(s, i + 1)
    } else {
        i
    }
}

/// The first position from `i` on that holds whitespace (or the end).
pub open spec fn word_end(s: Seq<u8>, i: int) -> int
    decreases s.len() - i,
{
    if i < 0 || i >= s.len() {
        s.len() as int
    } else if is_space(s[i]) {
        i
    } else {
        word_end(s, i + 1)
    }
}

/// The start of the first word of `s`.
pub open spec fn first_start(s: Seq<u8>) -> int {
    skip_spaces(s, 0)
}

/// The end of the first word of `s`.
pub open spec fn first_end(s: Seq<u8>) -> int {
    word_end(s, first_start(s))
}

/// The start of the second word of `s`.
pub open spec fn second_start(s: Seq<u8>) -> int {
    skip_spaces(s, first_end(s))
}

/// The end of the second word of `s`.
pub open spec fn second_end(s: Seq<u8>) -> int {
    word_end(s, second_start(s))
}

/// The method that the word `m` names, if any.
pub open spec fn method_named(m: Seq<u8>) -> Option<Method> {
    if m == seq!['G' as u8, 'E' as u8, 'T' as u8] {
        Some(Method::Get)
    } else if m == seq!['H' as u8, 'E' as u8, 'A' as u8, 'D' as u8] {
        Some(Method::Head)
    } else if m == seq!['O' as u8, 'P' as u8, 'T' as u8, 'I' as u8, 'O' as u8, 'N' as u8, 'S' as u8] {
        Some(Method::Options)
    } else {
        None
    }
}

proof fn lemma_skip_spaces(s: Seq<u8>, i: int)
    requires
        0 <= i <= s.len(),
    ensures
        i <= skip_spaces(s, i) <= s.len(),
        skip_spaces(s, i) < s.len() ==> !is_space(s[skip_spaces(s, i)]),
    decreases s.len() - i,
{
    if i < s.len() && is_space(s[i]) {
        lemma_skip_spaces(s, i + 1);
    }
}

proof fn lemma_word_end(s: Seq<u8>, i: int)
    requires
        0 <= i <= s.len(),
    ensures
        i <= word_end(s, i) <= s.len(),
    decreases s.len() - i,
{
    if i < s.len() && !is_space(s[i]) {
        lemma_word_end(s, i + 1);
    }
}

/// The first position from `i` on that holds no whitespace.
fn skip_spaces_from(s: &[u8], i: usize) -> (r: usize)
    requires
        i <= s@.len(),
    ensures
        r == skip_spaces(s@, i as int),
{
    let mut j = i;
    while j < s.len() && (s[j] == 32 || s[j] == 9 || s[j] == 10 || s[j] == 12 || s[j] == 13)
        invariant
            i <= j <= s@.len(),
            skip_spaces(s@, j as int) == skip_spaces(s@, i as int),
        decreases s@.len() - j,
    {
        j = j + 1;
    }
    j
}

/// The first position from `i` on that holds whitespace.
fn word_end_from(s: &[u8], i: usize) -> (r: usize)
    requires
        i <= s@.len(),
    ensures
        r == word_end(s@, i as int),
{
    let mut j = i;
    while j < s.len() && !(s[j] == 32 || s[j] == 9 || s[j] == 10 || s[j] == 12 || s[j] == 13)
        invariant
            i <= j <= s@.len(),
            word_end(s@, j as int) == word_end(s@, i as int),
        decreases s@.len() - j,
    {
        j = j + 1;
    }
    j
}

/// Whether `s[a..b]` spells `word`.
fn spells(s: &[u8], a: usize, b: usize, word: &[u8]) -> (r: bool)
    requires
        a <= b <= s@.len(),
    ensures
        r == (s@.subrange(a as int, b as int) == word@),
{
    if b - a != word.len() {
        return false;
    }
    let mut k: usize = 0;
    while k < word.len()
        invariant
            k <= word@.len(),
            b - a == word@.len(),
            a <= b <= s@.len(),
            forall|j: int| 0 <= j < k ==> s@[a + j] == word@[j],
        decreases word@.len() - k,
    {
        if s[a + k] != word[k] {
            assert(s@.subrange(a as int, b as int)[k as int] != word@[k as int]);
            return false;
        }
        k = k + 1;
    }
    assert(s@.subrange(a as int, b as int) =~= word@);
    true
}

/// Reads the method and the resource, the first two words of a request line.
pub fn parse_request_line(req: &[u8]) -> (r: Result<Request, RequestError>)
    ensures
        r == Err::<Request, RequestError>(RequestError::MissingField) <==> second_start(req@)
            == req@.len(),
        r == Err::<Request, RequestError>(RequestError::UnknownMethod) <==> second_start(req@)
            < req@.len() && method_named(req@.subrange(first_start(req@), first_end(req@))) is None,
        r is Ok ==> method_named(req@.subrange(first_start(req@), first_end(req@))) == Some(
            r->Ok_0.method,
        ) && r->Ok_0.resource@ == req@.subrange(second_start(req@), second_end(req@)),
{
    proof {
        lemma_skip_spaces(req@, 0);
        lemma_word_end(req@, first_start(req@));
        lemma_skip_spaces(req@, first_end(req@));
        lemma_word_end(req@, second_start(req@));
    }
    let a0 = skip_spaces_from(req, 0);
    let b0 = word_end_from(req, a0);
    let a1 = skip_spaces_from(req, b0);
    let b1 = word_end_from(req, a1);
    if a1 == req.len() {
        return Err(RequestError::MissingField);
    }
    let get: [u8; 3] = ['G' as u8, 'E' as u8, 'T' as u8];
    let head: [u8; 4] = ['H' as u8, 'E' as u8, 'A' as u8, 'D' as u8];
    let options: [u8; 7] = ['O' as u8, 'P' as u8, 'T' as u8, 'I' as u8, 'O' as u8, 'N' as u8, 'S' as u8];
    assert(get@ =~= seq!['G' as u8, 'E' as u8, 'T' as u8]);
    assert(head@ =~= seq!['H' as u8, 'E' as u8, 'A' as u8, 'D' as u8]);
    assert(options@ =~= seq!['O' as u8, 'P' as u8, 'T' as u8, 'I' as u8, 'O' as u8, 'N' as u8, 'S' as u8]);
    let method = if spells(req, a0, b0, vstd::array::array_as_slice(&get)) {
        Method::Get
    } else if spells(req, a0, b0, vstd::array::array_as_slice(&head)) {
        Method::Head
    } else if spells(req, a0, b0, vstd::array::array_as_slice(&options)) {
        Method::Options
    } else {
        return Err(RequestError::UnknownMethod);
    };
    let resource = slice_to_vec(req, a1, b1);
    Ok(Request { method, resource })
}

/// A copy of `s[a..b]`.
fn slice_to_vec(s: &[u8], a: usize, b: usize) -> (r: Vec<u8>)
    requires
        a <= b <= s@.len(),
    ensures
        r@ == s@.subrange(a as int, b as int),
{
    let mut r: Vec<u8> = Vec::new();
    let mut k = a;
    while k < b
        invariant
            a <= k <= b <= s@.len(),
            r@ == s@.subrange(a as int, k as int),
        decreases b - k,
    {
        r.push(s[k]);
        k = k + 1;
        assert(r@ =~= s@.subrange(a as int, k as int));
    }
    r
}


/// `s` begins with `p`.
pub open spec fn starts_with(s: Seq<u8>, p: Seq<u8>) -> bool {
    s.len() >= p.len() && s.take(p.len() as int) == p
}

/// `line` begins with a method that the service answers: `GET`, `HEAD` or `OPTIONS`.
pub open spec fn opens_request(line: Seq<u8>) -> bool {
    starts_with(line, seq!['G' as u8, 'E' as u8, 'T' as u8]) || starts_with(
        line,
        seq!['H' as u8, 'E' as u8, 'A' as u8, 'D' as u8],
    ) || starts_with(
        line,
        seq!['O' as u8, 'P' as u8, 'T' as u8, 'I' as u8, 'O' as u8, 'N' as u8, 'S' as u8],
    )
}

/// Whether `line` begins with `prefix`.
fn has_prefix(line: &[u8], prefix: &[u8]) -> (r: bool)
    ensures
        r == starts_with(line@, prefix@),
{
    if line.len() < prefix.len() {
        return false;
    }
    let r = spells(line, 0, prefix.len(), prefix);
    assert(line@.subrange(0, prefix@.len() as int) =~= line@.take(prefix@.len() as int));
    r
}

/// Whether `line` is the request line among the lines of a request.
pub fn is_request_line(line: &[u8]) -> (r: bool)
    ensures
        r == opens_request(line@),
{
    let get: [u8; 3] = ['G' as u8, 'E' as u8, 'T' as u8];
    let head: [u8; 4] = ['H' as u8, 'E' as u8, 'A' as u8, 'D' as u8];
    let options: [u8; 7] = ['O' as u8, 'P' as u8, 'T' as u8, 'I' as u8, 'O' as u8, 'N' as u8, 'S' as u8];
    assert(get@ =~= seq!['G' as u8, 'E' as u8, 'T' as u8]);
    assert(head@ =~= seq!['H' as u8, 'E' as u8, 'A' as u8, 'D' as u8]);
    assert(options@ =~= seq!['O' as u8, 'P' as u8, 'T' as u8, 'I' as u8, 'O' as u8, 'N' as u8, 'S' as u8]);
    has_prefix(line, vstd::array::array_as_slice(&get)) || has_prefix(
        line,
        vstd::array::array_as_slice(&head),
    ) || has_prefix(line, vstd::array::array_as_slice(&options))
}

/// The resource that serves a random word.
pub open spec fn word_resource() -> Seq<u8> {
    seq!['/' as u8, 'w' as u8, 'o' as u8, 'r' as u8, 'd' as u8]
}

/// What the service answers to `req`: an `OPTIONS` request gets the cross-origin
/// headers; otherwise `/word` gets a word and anything else is not found.
pub fn route(req: &Request) -> (r: Response)
    ensures
        req.method == Method::Options ==> r == Response::Cors,
        req.method != Method::Options && req.resource@ == word_resource() ==> r == Response::Word,
        req.method != Method::Options && req.resource@ != word_resource() ==> r
            == Response::NotFound,
{
    if req.method == Method::Options {
        return Response::Cors;
    }
    let word: [u8; 5] = ['/' as u8, 'w' as u8, 'o' as u8, 'r' as u8, 'd' as u8];
    assert(word@ =~= word_resource());
    let res = vstd::slice::slice_subrange(req.resource.as_slice(), 0, req.resource.len());
    assert(res@ =~= req.resource@);
    if spells(res, 0, res.len(), vstd::array::array_as_slice(&word)) {
        assert(res@.subrange(0, res@.len() as int) =~= res@);
        Response::Word
    } else {
        assert(res@.subrange(0, res@.len() as int) =~= res@);
        Response::NotFound
    }
}

} // verus!
