//! HTTP CONNECT wire codec: head framing with a hard size cap, a parser
//! for CONNECT request heads and response status lines, and the request
//! and response writers.
//!
//! Lines end at LF; a trailing CR before the LF is stripped, so both CRLF
//! and bare LF line endings parse.  A head ends at the first empty line.

use crate::leo::Error;
use crate::util::{append_from, bytes_eq, push_str, sub_vec};
use vstd::pervasive::unreached;
use vstd::prelude::*;
use vstd::string::*;
use vstd::utf8::encode_utf8;

verus! {

/// Largest accepted head: request or response line plus headers plus the
/// terminating empty line.
pub const MAX_HEAD_LENGTH: usize = 8192;

pub const CR: u8 = 13;

pub const LF: u8 = 10;

pub const SP: u8 = 32;

pub const HTAB: u8 = 9;

pub const COLON: u8 = 58;

// ---------------------------------------------------------------------
// Head termination
// ---------------------------------------------------------------------
/// A CRLF CRLF sequence ends at position `e` of `s`.
pub open spec fn crlfcrlf_at(s: Seq<u8>, e: int) -> bool {
    4 <= e <= s.len() && s[e - 4] == CR && s[e - 3] == LF && s[e - 2] == CR && s[e - 1] == LF
}

/// An LF LF sequence ends at position `e` of `s`.
pub open spec fn lflf_at(s: Seq<u8>, e: int) -> bool {
    2 <= e <= s.len() && s[e - 2] == LF && s[e - 1] == LF
}

/// A head terminator ends at position `e`.
pub open spec fn head_end_at(s: Seq<u8>, e: int, lflf: bool) -> bool {
    crlfcrlf_at(s, e) || (lflf && lflf_at(s, e))
}

/// The position just after the first head terminator at or after `e`.
pub open spec fn first_head_end(s: Seq<u8>, lflf: bool, e: int) -> Option<int>
    decreases s.len() - e + 1,
{
    if e > s.len() {
        None
    } else if head_end_at(s, e, lflf) {
        Some(e)
    } else {
        first_head_end(s, lflf, e + 1)
    }
}

fn is_head_end_at(s: &Vec<u8>, e: usize, lflf: bool) -> (r: bool)
    requires
        e <= s.len(),
    ensures
        r == head_end_at(s@, e as int, lflf),
{
    (e >= 4 && s[e - 4] == CR && s[e - 3] == LF && s[e - 2] == CR && s[e - 1] == LF) || (lflf && e
        >= 2 && s[e - 2] == LF && s[e - 1] == LF)
}

fn scan_head_end(s: &Vec<u8>, lflf: bool) -> (r: Option<usize>)
    ensures
        r matches Some(e) ==> first_head_end(s@, lflf, 0) == Some(e as int) && e <= s.len(),
        r is None ==> first_head_end(s@, lflf, 0) is None,
{
    let mut e: usize = 0;
    loop
        invariant_except_break
            e <= s.len(),
            first_head_end(s@, lflf, 0) == first_head_end(s@, lflf, e as int),
        ensures
            first_head_end(s@, lflf, 0) is None,
        decreases s.len() - e,
    {
        if is_head_end_at(s, e, lflf) {
            return Some(e);
        }
        if e == s.len() {
            assert(first_head_end(s@, lflf, e as int + 1) is None);
            break;
        }
        e = e + 1;
    }
    None
}

/// Accumulates bytes until a whole head (capped at
/// [`MAX_HEAD_LENGTH`]) has arrived.
pub struct HeadReader {
    buf: Vec<u8>,
    lflf: bool,
}

impl HeadReader {
    /// Everything pushed so far.
    pub closed spec fn bytes(&self) -> Seq<u8> {
        self.buf@
    }

    /// Whether a bare LF LF terminator is also accepted (response heads).
    pub closed spec fn tolerates_lflf(&self) -> bool {
        self.lflf
    }

    /// A whole head, no longer than the cap, has arrived.
    pub open spec fn complete(&self) -> bool {
        first_head_end(self.bytes(), self.tolerates_lflf(), 0) matches Some(e) && e
            <= MAX_HEAD_LENGTH
    }

    /// The head cannot end within the cap any more.
    pub open spec fn overlong(&self) -> bool {
        match first_head_end(self.bytes(), self.tolerates_lflf(), 0) {
            Some(e) => e > MAX_HEAD_LENGTH,
            None => self.bytes().len() >= MAX_HEAD_LENGTH,
        }
    }

    pub fn new(tolerate_lflf: bool) -> (r: Self)
        ensures
            r.bytes() == Seq::<u8>::empty(),
            r.tolerates_lflf() == tolerate_lflf,
    {
        HeadReader { buf: Vec::new(), lflf: tolerate_lflf }
    }

    /// Adds received bytes.  Yields `Ok(true)` once the head is complete,
    /// and fails as soon as no terminator can appear within the cap, so
    /// the buffer never grows without bound.
    pub fn push(&mut self, data: &Vec<u8>) -> (r: Result<bool, Error>)
        ensures
            final(self).tolerates_lflf() == old(self).tolerates_lflf(),
            final(self).bytes() == old(self).bytes() + data@,
            final(self).complete() ==> r == Ok::<bool, Error>(true),
            final(self).overlong() ==> (r matches Err(e) && e matches Error::Http(m) && m@
                == "head too large"@),
            !final(self).complete() && !final(self).overlong() ==> r == Ok::<bool, Error>(false),
    {
        append_from(&mut self.buf, data);
        match scan_head_end(&self.buf, self.lflf) {
            Some(e) => {
                if e <= MAX_HEAD_LENGTH {
                    Ok(true)
                } else {
                    Err(Error::Http("head too large"))
                }
            },
            None => {
                if self.buf.len() >= MAX_HEAD_LENGTH {
                    Err(Error::Http("head too large"))
                } else {
                    Ok(false)
                }
            },
        }
    }

    /// Splits the buffer into the complete head and whatever followed it;
    /// the latter is payload and must be preserved.
    pub fn take(self) -> (r: (Vec<u8>, Vec<u8>))
        requires
            self.complete(),
        ensures
            first_head_end(self.bytes(), self.tolerates_lflf(), 0) matches Some(e) ==> r.0@
                == self.bytes().take(e) && r.1@ == self.bytes().skip(e),
    {
        let e = match scan_head_end(&self.buf, self.lflf) {
            Some(e) => e,
            None => unreached(),
        };
        let head = sub_vec(&self.buf, 0, e);
        let rest = sub_vec(&self.buf, e, self.buf.len());
        assert(head@ =~= self.bytes().take(e as int));
        assert(rest@ =~= self.bytes().skip(e as int));
        (head, rest)
    }
}

// ---------------------------------------------------------------------
// Head structure
// ---------------------------------------------------------------------
/// The first LF at or after `from`.
pub open spec fn find_lf(s: Seq<u8>, from: int) -> Option<int>
    decreases s.len() - from,
{
    if from < 0 || from >= s.len() {
        None
    } else if s[from] == LF {
        Some(from)
    } else {
        find_lf(s, from + 1)
    }
}

proof fn lemma_find_lf_ge(s: Seq<u8>, from: int)
    ensures
        find_lf(s, from) matches Some(i) ==> from <= i < s.len(),
    decreases s.len() - from,
{
    if 0 <= from && from < s.len() && s[from] != LF {
        lemma_find_lf_ge(s, from + 1);
    }
}

/// The first occurrence of byte `b` in `s` at or after `from`.
pub open spec fn find_byte(s: Seq<u8>, from: int, b: u8) -> Option<int>
    decreases s.len() - from,
{
    if from < 0 || from >= s.len() {
        None
    } else if s[from] == b {
        Some(from)
    } else {
        find_byte(s, from + 1, b)
    }
}

/// A line with its trailing CR, if any, removed.
pub open spec fn strip_cr(l: Seq<u8>) -> Seq<u8> {
    if l.len() > 0 && l[l.len() - 1] == CR {
        l.take(l.len() - 1)
    } else {
        l
    }
}

/// Optional whitespace around a header value.
pub open spec fn is_ows(b: u8) -> bool {
    b == SP || b == HTAB
}

/// First non-whitespace position at or after `from`.
pub open spec fn skip_ows(s: Seq<u8>, from: int) -> int
    decreases s.len() - from,
{
    if 0 <= from < s.len() && is_ows(s[from]) {
        skip_ows(s, from + 1)
    } else {
        from
    }
}

/// Position after the last non-whitespace byte before `upto`.
pub open spec fn rskip_ows(s: Seq<u8>, upto: int) -> int
    decreases upto,
{
    if 0 < upto <= s.len() && is_ows(s[upto - 1]) {
        rskip_ows(s, upto - 1)
    } else {
        upto
    }
}

/// A header value with surrounding whitespace removed.
pub open spec fn trim_ows(s: Seq<u8>) -> Seq<u8> {
    let a = skip_ows(s, 0);
    let b = rskip_ows(s, s.len() as int);
    if a <= b {
        s.subrange(a, b)
    } else {
        Seq::empty()
    }
}

/// One `name: value` line: the name is everything before the first colon
/// and must be non-empty; the value is trimmed.
pub open spec fn parse_header_line(line: Seq<u8>) -> Option<(Seq<u8>, Seq<u8>)> {
    match find_byte(line, 0, COLON) {
        None => None,
        Some(c) => {
            if c == 0 {
                None
            } else {
                Some((line.take(c), trim_ows(line.skip(c + 1))))
            }
        },
    }
}

/// The header block starting at `from`: lines up to the first empty line.
/// `None` when a line is malformed or the empty line never comes.
pub open spec fn parse_headers(s: Seq<u8>, from: int) -> Option<Seq<(Seq<u8>, Seq<u8>)>>
    decreases s.len() - from,
        via parse_headers_dec
{
    match find_lf(s, from) {
        None => None,
        Some(lf) => {
            let line = strip_cr(s.subrange(from, lf));
            if line.len() == 0 {
                Some(Seq::empty())
            } else {
                match parse_header_line(line) {
                    None => None,
                    Some(h) => match parse_headers(s, lf + 1) {
                        None => None,
                        Some(t) => Some(seq![h] + t),
                    },
                }
            }
        },
    }
}

#[via_fn]
proof fn parse_headers_dec(s: Seq<u8>, from: int) {
    lemma_find_lf_ge(s, from);
}

/// Lower-casing of an ASCII letter.
pub open spec fn lower(b: u8) -> u8 {
    if 65 <= b <= 90 {
        (b + 32) as u8
    } else {
        b
    }
}

/// ASCII-case-insensitive equality of header names.
pub open spec fn header_name_eq(a: Seq<u8>, b: Seq<u8>) -> bool {
    a.len() == b.len() && (forall|i: int| 0 <= i < a.len() ==> lower(a[i]) == lower(b[i]))
}

/// The value of the first header whose name matches, case-insensitively.
pub open spec fn find_header(hs: Seq<(Seq<u8>, Seq<u8>)>, name: Seq<u8>) -> Option<Seq<u8>>
    decreases hs.len(),
{
    if hs.len() == 0 {
        None
    } else if header_name_eq(hs[0].0, name) {
        Some(hs[0].1)
    } else {
        find_header(hs.skip(1), name)
    }
}

/// Appending one header changes a lookup only where it found nothing.
proof fn lemma_find_header_append(hs: Seq<(Seq<u8>, Seq<u8>)>, h: (Seq<u8>, Seq<u8>), name: Seq<u8>)
    ensures
        find_header(hs + seq![h], name) == (match find_header(hs, name) {
            Some(v) => Some(v),
            None => if header_name_eq(h.0, name) {
                Some(h.1)
            } else {
                None
            },
        }),
    decreases hs.len(),
{
    if hs.len() == 0 {
        assert(hs + seq![h] =~= seq![h]);
        assert(seq![h].skip(1) =~= Seq::<(Seq<u8>, Seq<u8>)>::empty());
    } else {
        assert((hs + seq![h])[0] == hs[0]);
        assert((hs + seq![h]).skip(1) =~= hs.skip(1) + seq![h]);
        lemma_find_header_append(hs.skip(1), h, name);
    }
}

/// A digit `0` to `9`.
pub open spec fn is_digit(b: u8) -> bool {
    48 <= b <= 57
}

/// `HTTP/1.` followed by one digit.
pub open spec fn version_wf(v: Seq<u8>) -> bool {
    v.len() == 8 && v.subrange(0, 7) == "HTTP/1.".spec_bytes() && is_digit(v[7])
}

/// The minor version digit.
pub open spec fn minor_of(v: Seq<u8>) -> u8
    recommends
        version_wf(v),
{
    (v[7] as int - 48) as u8
}

/// A parsed request head.
pub struct RequestModel {
    pub method: Seq<u8>,
    pub target: Seq<u8>,
    pub minor: u8,
    pub headers: Seq<(Seq<u8>, Seq<u8>)>,
}

/// The whole request head: `method SP target SP version` on the first
/// line, then the header block.
pub open spec fn parse_request_model(s: Seq<u8>) -> Option<RequestModel> {
    match find_lf(s, 0) {
        None => None,
        Some(lf) => {
            let line = strip_cr(s.subrange(0, lf));
            match find_byte(line, 0, SP) {
                None => None,
                Some(sp1) => {
                    if sp1 == 0 {
                        None
                    } else {
                        let rest = line.skip(sp1 + 1);
                        match find_byte(rest, 0, SP) {
                            None => None,
                            Some(sp2) => {
                                if sp2 == 0 || !version_wf(rest.skip(sp2 + 1)) {
                                    None
                                } else {
                                    match parse_headers(s, lf + 1) {
                                        None => None,
                                        Some(hs) => Some(
                                            RequestModel {
                                                method: line.take(sp1),
                                                target: rest.take(sp2),
                                                minor: minor_of(rest.skip(sp2 + 1)),
                                                headers: hs,
                                            },
                                        ),
                                    }
                                }
                            },
                        }
                    }
                },
            }
        },
    }
}

pub open spec fn connect_method() -> Seq<u8> {
    "CONNECT".spec_bytes()
}

pub open spec fn proxy_auth_name() -> Seq<u8> {
    "proxy-authorization".spec_bytes()
}

pub open spec fn host_name() -> Seq<u8> {
    "host".spec_bytes()
}

/// The server's answer to a request head, before any I/O: `None` when the
/// head is malformed; otherwise the status code of the policy table
/// (method, version, then authorization) and, on success, the `Host`
/// header value.
pub open spec fn spec_request_outcome(s: Seq<u8>, auth: Option<Seq<u8>>) -> Option<
    (u16, Option<Seq<u8>>),
> {
    match parse_request_model(s) {
        None => None,
        Some(req) => Some(
            if req.method != connect_method() {
                (405u16, Option::<Seq<u8>>::None)
            } else if req.minor != 1 {
                (505u16, Option::<Seq<u8>>::None)
            } else {
                match (find_header(req.headers, proxy_auth_name()), auth) {
                    (Some(a), Some(b)) => if a != b {
                        (401u16, Option::<Seq<u8>>::None)
                    } else {
                        (200u16, find_header(req.headers, host_name()))
                    },
                    (None, Some(_)) => (407u16, Option::<Seq<u8>>::None),
                    (_, None) => (200u16, find_header(req.headers, host_name())),
                }
            },
        ),
    }
}

/// The status line of a response: version, a three-digit code, then
/// nothing or a space and a reason.
pub open spec fn parse_status_line(line: Seq<u8>) -> Option<(u8, u16)> {
    match find_byte(line, 0, SP) {
        None => None,
        Some(sp1) => {
            if !version_wf(line.take(sp1)) {
                None
            } else {
                let rest = line.skip(sp1 + 1);
                if rest.len() < 3 || !is_digit(rest[0]) || !is_digit(rest[1]) || !is_digit(
                    rest[2],
                ) {
                    None
                } else if rest.len() > 3 && rest[3] != SP {
                    None
                } else {
                    Some(
                        (
                            minor_of(line.take(sp1)),
                            ((rest[0] - 48) as int * 100 + (rest[1] - 48) as int * 10 + (rest[2]
                                - 48) as int) as u16,
                        ),
                    )
                }
            }
        },
    }
}

/// What a response head means: `None` when malformed; `Some(None)` when
/// it is no usable HTTP/1.1 status; `Some(Some(code))` otherwise.
pub open spec fn spec_response_outcome(s: Seq<u8>) -> Option<Option<u16>> {
    match find_lf(s, 0) {
        None => None,
        Some(lf) => match parse_status_line(strip_cr(s.subrange(0, lf))) {
            None => None,
            Some((minor, code)) => match parse_headers(s, lf + 1) {
                None => None,
                Some(_) => Some(
                    if minor == 1 && code >= 100 {
                        Some(code)
                    } else {
                        None
                    },
                ),
            },
        },
    }
}

// ---------------------------------------------------------------------
// Executable parsing
// ---------------------------------------------------------------------
fn scan_lf(s: &Vec<u8>, from: usize) -> (r: Option<usize>)
    requires
        from <= s.len(),
    ensures
        r matches Some(i) ==> find_lf(s@, from as int) == Some(i as int) && from <= i < s.len(),
        r is None ==> find_lf(s@, from as int) is None,
{
    let mut i: usize = from;
    while i < s.len()
        invariant
            from <= i <= s.len(),
            find_lf(s@, from as int) == find_lf(s@, i as int),
        decreases s.len() - i,
    {
        if s[i] == LF {
            return Some(i);
        }
        i = i + 1;
    }
    None
}

fn scan_byte(s: &Vec<u8>, from: usize, b: u8) -> (r: Option<usize>)
    requires
        from <= s.len(),
    ensures
        r matches Some(i) ==> find_byte(s@, from as int, b) == Some(i as int) && from <= i
            < s.len(),
        r is None ==> find_byte(s@, from as int, b) is None,
{
    let mut i: usize = from;
    while i < s.len()
        invariant
            from <= i <= s.len(),
            find_byte(s@, from as int, b) == find_byte(s@, i as int, b),
        decreases s.len() - i,
    {
        if s[i] == b {
            return Some(i);
        }
        i = i + 1;
    }
    None
}

/// Copies the line `s[from..lf]` without its trailing CR, if any.
fn take_line(s: &Vec<u8>, from: usize, lf: usize) -> (r: Vec<u8>)
    requires
        from <= lf <= s.len(),
    ensures
        r@ == strip_cr(s@.subrange(from as int, lf as int)),
{
    let mut l = sub_vec(s, from, lf);
    if l.len() > 0 && l[l.len() - 1] == CR {
        let ghost before = l@;
        l.pop();
        assert(l@ =~= strip_cr(before));
    }
    l
}

/// When every byte before `k` is whitespace, trimming from the right
/// passes them all.
proof fn lemma_rskip_all_ows(t: Seq<u8>, k: int)
    requires
        0 <= k <= t.len(),
        forall|j: int| 0 <= j < k ==> is_ows(t[j]),
    ensures
        rskip_ows(t, k) == 0,
    decreases k,
{
    if k > 0 {
        lemma_rskip_all_ows(t, k - 1);
    }
}

/// The trimmed value part of a header line, starting at `from`.
fn trim_value(line: &Vec<u8>, from: usize) -> (r: Vec<u8>)
    requires
        from <= line.len(),
    ensures
        r@ == trim_ows(line@.skip(from as int)),
{
    let ghost t = line@.skip(from as int);
    assert(t.len() == line@.len() - from);
    let mut a: usize = from;
    while a < line.len() && (line[a] == SP || line[a] == HTAB)
        invariant
            from <= a <= line.len(),
            t == line@.skip(from as int),
            skip_ows(t, 0) == skip_ows(t, a - from),
            forall|j: int| from <= j < a ==> is_ows(line@[j]),
        decreases line.len() - a,
    {
        proof {
            assert(t[a - from] == line@[a as int]);
        }
        a = a + 1;
    }
    assert(skip_ows(t, 0) == a - from) by {
        if (a - from) < t.len() {
            assert(t[a - from] == line@[a as int]);
        }
    }
    let mut b: usize = line.len();
    while b > a && (line[b - 1] == SP || line[b - 1] == HTAB)
        invariant
            from <= a <= b <= line.len(),
            t == line@.skip(from as int),
            rskip_ows(t, t.len() as int) == rskip_ows(t, b - from),
        decreases b,
    {
        proof {
            assert(t[b - 1 - from] == line@[b - 1]);
        }
        b = b - 1;
    }
    let r = sub_vec(line, a, b);
    proof {
        if b > a {
            assert(t[b - 1 - from] == line@[b - 1]);
            assert(rskip_ows(t, b - from) == b - from);
            assert(r@ =~= t.subrange(a - from, b - from));
        } else {
            assert(forall|j: int| 0 <= j < a - from ==> is_ows(t[j]) && t[j] == line@[j + from]);
            lemma_rskip_all_ows(t, a - from);
            assert(r@ =~= Seq::<u8>::empty());
            if skip_ows(t, 0) <= rskip_ows(t, t.len() as int) {
                assert(trim_ows(t) =~= Seq::<u8>::empty());
            }
        }
    }
    r
}

fn lower_b(b: u8) -> (r: u8)
    ensures
        r == lower(b),
{
    if 65 <= b && b <= 90 {
        b + 32
    } else {
        b
    }
}

/// ASCII-case-insensitive comparison of a header name with a pattern.
fn name_eq_ci(a: &Vec<u8>, b: &[u8]) -> (r: bool)
    ensures
        r == header_name_eq(a@, b@),
{
    if a.len() != b.len() {
        return false;
    }
    let mut i: usize = 0;
    while i < a.len()
        invariant
            i <= a.len(),
            a@.len() == b@.len(),
            forall|j: int| 0 <= j < i ==> lower(a@[j]) == lower(b@[j]),
        decreases a.len() - i,
    {
        if lower_b(a[i]) != lower_b(b[i]) {
            assert(lower(a@[i as int]) != lower(b@[i as int]));
            return false;
        }
        i = i + 1;
    }
    true
}

pub open spec fn opt_auth_view(o: Option<&Vec<u8>>) -> Option<Seq<u8>> {
    match o {
        Some(v) => Some(v@),
        None => None,
    }
}

pub open spec fn opt_bytes_view(o: Option<Vec<u8>>) -> Option<Seq<u8>> {
    match o {
        Some(v) => Some(v@),
        None => None,
    }
}

/// Walks the header block from `start`, returning the first
/// `Proxy-Authorization` and the first `Host` value, or failing where the
/// block is malformed.
fn scan_headers(s: &Vec<u8>, start: usize) -> (r: Result<
    (Option<Vec<u8>>, Option<Vec<u8>>),
    Error,
>)
    requires
        start <= s.len(),
    ensures
        parse_headers(s@, start as int) matches Some(hs) ==> (r matches Ok(p) && opt_bytes_view(
            p.0,
        ) == find_header(hs, proxy_auth_name()) && opt_bytes_view(p.1) == find_header(
            hs,
            host_name(),
        )),
        parse_headers(s@, start as int) is None ==> (r matches Err(e) && e matches Error::Http(m)
            && m@ == "malformed http head"@),
{
    let ghost h0 = start as int;
    let mut pos: usize = start;
    let ghost mut acc: Seq<(Seq<u8>, Seq<u8>)> = Seq::empty();
    let mut found_auth: Option<Vec<u8>> = None;
    let mut found_host: Option<Vec<u8>> = None;
    loop
        invariant_except_break
            h0 == start as int,
            pos <= s.len(),
            parse_headers(s@, h0) == (match parse_headers(s@, pos as int) {
                None => None::<Seq<(Seq<u8>, Seq<u8>)>>,
                Some(t) => Some(acc + t),
            }),
            found_auth matches Some(v) ==> find_header(acc, proxy_auth_name()) == Some(v@),
            found_auth is None ==> find_header(acc, proxy_auth_name()) is None,
            found_host matches Some(v) ==> find_header(acc, host_name()) == Some(v@),
            found_host is None ==> find_header(acc, host_name()) is None,
        ensures
            ({
                &&& parse_headers(s@, h0) matches Some(hs)
                &&& (found_auth matches Some(v) ==> find_header(
                    parse_headers(s@, h0)->0,
                    proxy_auth_name(),
                ) == Some(v@))
                &&& (found_auth is None ==> find_header(
                    parse_headers(s@, h0)->0,
                    proxy_auth_name(),
                ) is None)
                &&& (found_host matches Some(v) ==> find_header(
                    parse_headers(s@, h0)->0,
                    host_name(),
                ) == Some(v@))
                &&& (found_host is None ==> find_header(parse_headers(s@, h0)->0, host_name())
                    is None)
            }),
        decreases s.len() - pos,
    {
        let lf = match scan_lf(s, pos) {
            Some(i) => i,
            None => {
                return Err(Error::Http("malformed http head"));
            },
        };
        let line = take_line(s, pos, lf);
        if line.len() == 0 {
            proof {
                assert(acc + Seq::<(Seq<u8>, Seq<u8>)>::empty() =~= acc);
            }
            break;
        }
        let c = match scan_byte(&line, 0, COLON) {
            Some(i) => i,
            None => {
                return Err(Error::Http("malformed http head"));
            },
        };
        if c == 0 {
            return Err(Error::Http("malformed http head"));
        }
        let name = sub_vec(&line, 0, c);
        let value = trim_value(&line, c + 1);
        let ghost h = (line@.take(c as int), trim_ows(line@.skip(c as int + 1)));
        proof {
            assert(name@ =~= h.0);
            assert(value@ == h.1);
            lemma_find_header_append(acc, h, proxy_auth_name());
            lemma_find_header_append(acc, h, host_name());
            if let Some(t) = parse_headers(s@, lf as int + 1) {
                assert(acc + (seq![h] + t) =~= (acc + seq![h]) + t);
            }
        }
        let is_auth = name_eq_ci(&name, "proxy-authorization".as_bytes());
        let is_host = name_eq_ci(&name, "host".as_bytes());
        if found_auth.is_none() && is_auth {
            let copy = sub_vec(&value, 0, value.len());
            assert(copy@ =~= value@);
            found_auth = Some(copy);
        }
        if found_host.is_none() && is_host {
            found_host = Some(value);
        }
        proof {
            acc = acc + seq![h];
        }
        pos = lf + 1;
    }
    Ok((found_auth, found_host))
}

/// Parses a request head and applies the CONNECT policy: wrong method,
/// wrong version, then (with credentials configured) missing or
/// mismatching authorization each pick their status code; otherwise the
/// request is accepted and the `Host` header value, if present, is the
/// tunnel target.
pub fn parse_request(head: &Vec<u8>, auth: Option<&Vec<u8>>) -> (r: Result<
    (u16, Option<Vec<u8>>),
    Error,
>)
    ensures
        spec_request_outcome(head@, opt_auth_view(auth)) matches Some(out) ==> (r matches Ok(p)
            && p.0 == out.0 && opt_bytes_view(p.1) == out.1),
        spec_request_outcome(head@, opt_auth_view(auth)) is None ==> (r matches Err(e)
            && e matches Error::Http(m) && m@ == "malformed http head"@),
{
    let lf1 = match scan_lf(head, 0) {
        Some(i) => i,
        None => {
            return Err(Error::Http("malformed http head"));
        },
    };
    let line = take_line(head, 0, lf1);
    let sp1 = match scan_byte(&line, 0, SP) {
        Some(i) => i,
        None => {
            return Err(Error::Http("malformed http head"));
        },
    };
    if sp1 == 0 {
        return Err(Error::Http("malformed http head"));
    }
    let method = sub_vec(&line, 0, sp1);
    let rest = sub_vec(&line, sp1 + 1, line.len());
    assert(rest@ =~= line@.skip(sp1 as int + 1));
    let sp2 = match scan_byte(&rest, 0, SP) {
        Some(i) => i,
        None => {
            return Err(Error::Http("malformed http head"));
        },
    };
    if sp2 == 0 {
        return Err(Error::Http("malformed http head"));
    }
    let ver = sub_vec(&rest, sp2 + 1, rest.len());
    assert(ver@ =~= rest@.skip(sp2 as int + 1));
    if ver.len() != 8 {
        return Err(Error::Http("malformed http head"));
    }
    let pre = sub_vec(&ver, 0, 7);
    assert(pre@ =~= ver@.subrange(0, 7));
    if !bytes_eq(pre.as_slice(), "HTTP/1.".as_bytes()) {
        return Err(Error::Http("malformed http head"));
    }
    if !(48 <= ver[7] && ver[7] <= 57) {
        return Err(Error::Http("malformed http head"));
    }
    let minor = ver[7] - 48;
    let (found_auth, found_host) = match scan_headers(head, lf1 + 1) {
        Ok(p) => p,
        Err(e) => {
            return Err(e);
        },
    };
    assert(method@ =~= strip_cr(head@.subrange(0, lf1 as int)).take(sp1 as int));
    if !bytes_eq(method.as_slice(), "CONNECT".as_bytes()) {
        return Ok((405, None));
    }
    if minor != 1 {
        return Ok((505, None));
    }
    match (&found_auth, auth) {
        (Some(a), Some(b)) => {
            if !bytes_eq(a.as_slice(), b.as_slice()) {
                Ok((401, None))
            } else {
                Ok((200, found_host))
            }
        },
        (None, Some(_)) => Ok((407, None)),
        (_, None) => Ok((200, found_host)),
    }
}

// ---------------------------------------------------------------------
// Encoding
// ---------------------------------------------------------------------
/// The decimal digits of `n`, most significant first.
pub open spec fn dec_bytes(n: nat) -> Seq<u8>
    decreases n,
{
    if n < 10 {
        seq![(48 + n) as u8]
    } else {
        dec_bytes(n / 10).push((48 + n % 10) as u8)
    }
}

/// Appends the decimal digits of `n` to `buf`.
pub fn push_dec(buf: &mut Vec<u8>, n: u16)
    ensures
        final(buf)@ == old(buf)@ + dec_bytes(n as nat),
    decreases n,
{
    if n < 10 {
        buf.push(48 + n as u8);
        assert(buf@ =~= old(buf)@ + dec_bytes(n as nat));
    } else {
        push_dec(buf, n / 10);
        buf.push(48 + (n % 10) as u8);
        assert(buf@ =~= old(buf)@ + dec_bytes(n as nat));
    }
}

/// `host:port` as it appears in the request line and the Host header.
pub open spec fn host_port_bytes(host: Seq<u8>, port: u16) -> Seq<u8> {
    host + seq![COLON] + dec_bytes(port as nat)
}

/// The exact bytes of a CONNECT request head.
pub open spec fn spec_request_head(host: Seq<u8>, port: u16, auth: Option<Seq<u8>>) -> Seq<u8> {
    "CONNECT ".spec_bytes() + host_port_bytes(host, port) + " HTTP/1.1\r\n".spec_bytes()
        + "Host: ".spec_bytes() + host_port_bytes(host, port) + "\r\n".spec_bytes() + (match auth {
        Some(a) => "Proxy-Authorization: ".spec_bytes() + a + "\r\n".spec_bytes(),
        None => Seq::<u8>::empty(),
    }) + "\r\n".spec_bytes()
}

/// The authorization header value carried by an optional string.
pub open spec fn opt_str_bytes(o: Option<&String>) -> Option<Seq<u8>> {
    match o {
        Some(s) => Some(encode_utf8(s@)),
        None => None,
    }
}

/// Writes a CONNECT request head: the request line, a Host header, the
/// authorization header when one is configured, and the empty line.
pub fn encode_request(host: &str, port: u16, authorization: Option<&String>, buf: &mut Vec<u8>)
    ensures
        final(buf)@ == old(buf)@ + spec_request_head(
            host.spec_bytes(),
            port,
            opt_str_bytes(authorization),
        ),
{
    push_str(buf, "CONNECT ");
    push_str(buf, host);
    buf.push(COLON);
    push_dec(buf, port);
    push_str(buf, " HTTP/1.1\r\n");
    push_str(buf, "Host: ");
    push_str(buf, host);
    buf.push(COLON);
    push_dec(buf, port);
    push_str(buf, "\r\n");
    match authorization {
        Some(a) => {
            push_str(buf, "Proxy-Authorization: ");
            push_str(buf, a.as_str());
            push_str(buf, "\r\n");
        },
        None => {},
    }
    push_str(buf, "\r\n");
    assert(buf@ =~= old(buf)@ + spec_request_head(
        host.spec_bytes(),
        port,
        opt_str_bytes(authorization),
    ));
}

/// The canonical reason phrase of a status code, as the conventional
/// registry has it.
pub open spec fn spec_canonical_reason(code: u16) -> Option<Seq<char>> {
    if code == 100 { Some("Continue"@) }
    else if code == 101 { Some("Switching Protocols"@) }
    else if code == 102 { Some("Processing"@) }
    else if code == 200 { Some("OK"@) }
    else if code == 201 { Some("Created"@) }
    else if code == 202 { Some("Accepted"@) }
    else if code == 203 { Some("Non Authoritative Information"@) }
    else if code == 204 { Some("No Content"@) }
    else if code == 205 { Some("Reset Content"@) }
    else if code == 206 { Some("Partial Content"@) }
    else if code == 207 { Some("Multi-Status"@) }
    else if code == 208 { Some("Already Reported"@) }
    else if code == 226 { Some("IM Used"@) }
    else if code == 300 { Some("Multiple Choices"@) }
    else if code == 301 { Some("Moved Permanently"@) }
    else if code == 302 { Some("Found"@) }
    else if code == 303 { Some("See Other"@) }
    else if code == 304 { Some("Not Modified"@) }
    else if code == 305 { Some("Use Proxy"@) }
    else if code == 307 { Some("Temporary Redirect"@) }
    else if code == 308 { Some("Permanent Redirect"@) }
    else if code == 400 { Some("Bad Request"@) }
    else if code == 401 { Some("Unauthorized"@) }
    else if code == 402 { Some("Payment Required"@) }
    else if code == 403 { Some("Forbidden"@) }
    else if code == 404 { Some("Not Found"@) }
    else if code == 405 { Some("Method Not Allowed"@) }
    else if code == 406 { Some("Not Acceptable"@) }
    else if code == 407 { Some("Proxy Authentication Required"@) }
    else if code == 408 { Some("Request Timeout"@) }
    else if code == 409 { Some("Conflict"@) }
    else if code == 410 { Some("Gone"@) }
    else if code == 411 { Some("Length Required"@) }
    else if code == 412 { Some("Precondition Failed"@) }
    else if code == 413 { Some("Payload Too Large"@) }
    else if code == 414 { Some("URI Too Long"@) }
    else if code == 415 { Some("Unsupported Media Type"@) }
    else if code == 416 { Some("Range Not Satisfiable"@) }
    else if code == 417 { Some("Expectation Failed"@) }
    else if code == 418 { Some("I'm a teapot"@) }
    else if code == 421 { Some("Misdirected Request"@) }
    else if code == 422 { Some("Unprocessable Entity"@) }
    else if code == 423 { Some("Locked"@) }
    else if code == 424 { Some("Failed Dependency"@) }
    else if code == 426 { Some("Upgrade Required"@) }
    else if code == 428 { Some("Precondition Required"@) }
    else if code == 429 { Some("Too Many Requests"@) }
    else if code == 431 { Some("Request Header Fields Too Large"@) }
    else if code == 451 { Some("Unavailable For Legal Reasons"@) }
    else if code == 500 { Some("Internal Server Error"@) }
    else if code == 501 { Some("Not Implemented"@) }
    else if code == 502 { Some("Bad Gateway"@) }
    else if code == 503 { Some("Service Unavailable"@) }
    else if code == 504 { Some("Gateway Timeout"@) }
    else if code == 505 { Some("HTTP Version Not Supported"@) }
    else if code == 506 { Some("Variant Also Negotiates"@) }
    else if code == 507 { Some("Insufficient Storage"@) }
    else if code == 508 { Some("Loop Detected"@) }
    else if code == 510 { Some("Not Extended"@) }
    else if code == 511 { Some("Network Authentication Required"@) }
    else { None }
}

/// The canonical reason phrase of a status code.
pub fn canonical_reason(code: u16) -> (r: Option<&'static str>)
    ensures
        r matches Some(m) ==> spec_canonical_reason(code) == Some(m@),
        r is None ==> spec_canonical_reason(code) is None,
{
    if code == 100 { Some("Continue") }
    else if code == 101 { Some("Switching Protocols") }
    else if code == 102 { Some("Processing") }
    else if code == 200 { Some("OK") }
    else if code == 201 { Some("Created") }
    else if code == 202 { Some("Accepted") }
    else if code == 203 { Some("Non Authoritative Information") }
    else if code == 204 { Some("No Content") }
    else if code == 205 { Some("Reset Content") }
    else if code == 206 { Some("Partial Content") }
    else if code == 207 { Some("Multi-Status") }
    else if code == 208 { Some("Already Reported") }
    else if code == 226 { Some("IM Used") }
    else if code == 300 { Some("Multiple Choices") }
    else if code == 301 { Some("Moved Permanently") }
    else if code == 302 { Some("Found") }
    else if code == 303 { Some("See Other") }
    else if code == 304 { Some("Not Modified") }
    else if code == 305 { Some("Use Proxy") }
    else if code == 307 { Some("Temporary Redirect") }
    else if code == 308 { Some("Permanent Redirect") }
    else if code == 400 { Some("Bad Request") }
    else if code == 401 { Some("Unauthorized") }
    else if code == 402 { Some("Payment Required") }
    else if code == 403 { Some("Forbidden") }
    else if code == 404 { Some("Not Found") }
    else if code == 405 { Some("Method Not Allowed") }
    else if code == 406 { Some("Not Acceptable") }
    else if code == 407 { Some("Proxy Authentication Required") }
    else if code == 408 { Some("Request Timeout") }
    else if code == 409 { Some("Conflict") }
    else if code == 410 { Some("Gone") }
    else if code == 411 { Some("Length Required") }
    else if code == 412 { Some("Precondition Failed") }
    else if code == 413 { Some("Payload Too Large") }
    else if code == 414 { Some("URI Too Long") }
    else if code == 415 { Some("Unsupported Media Type") }
    else if code == 416 { Some("Range Not Satisfiable") }
    else if code == 417 { Some("Expectation Failed") }
    else if code == 418 { Some("I'm a teapot") }
    else if code == 421 { Some("Misdirected Request") }
    else if code == 422 { Some("Unprocessable Entity") }
    else if code == 423 { Some("Locked") }
    else if code == 424 { Some("Failed Dependency") }
    else if code == 426 { Some("Upgrade Required") }
    else if code == 428 { Some("Precondition Required") }
    else if code == 429 { Some("Too Many Requests") }
    else if code == 431 { Some("Request Header Fields Too Large") }
    else if code == 451 { Some("Unavailable For Legal Reasons") }
    else if code == 500 { Some("Internal Server Error") }
    else if code == 501 { Some("Not Implemented") }
    else if code == 502 { Some("Bad Gateway") }
    else if code == 503 { Some("Service Unavailable") }
    else if code == 504 { Some("Gateway Timeout") }
    else if code == 505 { Some("HTTP Version Not Supported") }
    else if code == 506 { Some("Variant Also Negotiates") }
    else if code == 507 { Some("Insufficient Storage") }
    else if code == 508 { Some("Loop Detected") }
    else if code == 510 { Some("Not Extended") }
    else if code == 511 { Some("Network Authentication Required") }
    else { None }
}

/// The exact bytes of a response head: the status line, a
/// `Proxy-Authenticate` challenge when authentication is demanded, and
/// the empty line.
pub open spec fn spec_response_head(status: u16) -> Seq<u8>
    recommends
        spec_canonical_reason(status) is Some,
{
    "HTTP/1.1 ".spec_bytes() + dec_bytes(status as nat) + " ".spec_bytes() + encode_utf8(
        spec_canonical_reason(status)->0,
    ) + "\r\n".spec_bytes() + (if status == 407 {
        "Proxy-Authenticate: Basic realm=Proxy Server\r\n".spec_bytes()
    } else {
        Seq::<u8>::empty()
    }) + "\r\n".spec_bytes()
}

/// Writes a response head for a status the registry knows.
pub fn encode_response(status: u16, buf: &mut Vec<u8>)
    requires
        spec_canonical_reason(status) is Some,
    ensures
        final(buf)@ == old(buf)@ + spec_response_head(status),
{
    push_str(buf, "HTTP/1.1 ");
    push_dec(buf, status);
    push_str(buf, " ");
    let reason = match canonical_reason(status) {
        Some(m) => m,
        None => unreached(),
    };
    push_str(buf, reason);
    push_str(buf, "\r\n");
    if status == 407 {
        push_str(buf, "Proxy-Authenticate: Basic realm=Proxy Server\r\n");
    }
    push_str(buf, "\r\n");
    assert(buf@ =~= old(buf)@ + spec_response_head(status));
}

/// Parses a response head: `Ok(None)` when the head is valid HTTP but no
/// usable HTTP/1.1 status, `Ok(Some(code))` for a parsed status code.
pub fn parse_response(head: &Vec<u8>) -> (r: Result<Option<u16>, Error>)
    ensures
        spec_response_outcome(head@) matches Some(out) ==> r == Ok::<Option<u16>, Error>(out),
        spec_response_outcome(head@) is None ==> (r matches Err(e) && e matches Error::Http(m)
            && m@ == "malformed http head"@),
{
    let lf1 = match scan_lf(head, 0) {
        Some(i) => i,
        None => {
            return Err(Error::Http("malformed http head"));
        },
    };
    let line = take_line(head, 0, lf1);
    let sp1 = match scan_byte(&line, 0, SP) {
        Some(i) => i,
        None => {
            return Err(Error::Http("malformed http head"));
        },
    };
    let ver = sub_vec(&line, 0, sp1);
    assert(ver@ =~= line@.take(sp1 as int));
    let version_ok = if ver.len() != 8 {
        false
    } else {
        let pre = sub_vec(&ver, 0, 7);
        assert(pre@ =~= ver@.subrange(0, 7));
        bytes_eq(pre.as_slice(), "HTTP/1.".as_bytes()) && 48 <= ver[7] && ver[7] <= 57
    };
    if !version_ok {
        return Err(Error::Http("malformed http head"));
    }
    let rest = sub_vec(&line, sp1 + 1, line.len());
    assert(rest@ =~= line@.skip(sp1 as int + 1));
    if rest.len() < 3 || !(48 <= rest[0] && rest[0] <= 57) || !(48 <= rest[1] && rest[1] <= 57)
        || !(48 <= rest[2] && rest[2] <= 57) {
        return Err(Error::Http("malformed http head"));
    }
    if rest.len() > 3 && rest[3] != SP {
        return Err(Error::Http("malformed http head"));
    }
    let code = (rest[0] - 48) as u16 * 100 + (rest[1] - 48) as u16 * 10 + (rest[2] - 48) as u16;
    let minor = ver[7] - 48;
    match scan_headers(head, lf1 + 1) {
        Ok(_) => {
            if minor == 1 && code >= 100 {
                Ok(Some(code))
            } else {
                Ok(None)
            }
        },
        Err(e) => Err(e),
    }
}

} // verus!
