//! Collision-free naming of a file-backed session's output.
//!
//! The backend owns a fixed report extension and re-appends it to the
//! session name, so a trailing occurrence of that extension is first
//! stripped from the caller's path.  Availability of `base.ext` is then
//! claimed with an atomic create-if-absent probe; if the name is taken
//! and overwriting was not requested, `base.1.ext`, `base.2.ext`, ... are
//! probed in turn up to a bounded number of attempts.  The create-if-
//! absent probe is the sole arbiter of ownership: a name is never assumed
//! free from a mere existence check.  This module fixes every decision of
//! that algorithm; the filesystem probes themselves are performed by the
//! embedder, which feeds each [`ProbeOutcome`] back in.

use vstd::prelude::*;

use crate::status::ResultCode;

verus! {

/// Bound on numbered collision probes used by the simple entry point.
pub const DEFAULT_RETRY_LIMIT: u32 = 100;

/// What one atomic create-if-absent probe of a candidate path reported.
#[derive(Clone, Copy, PartialEq, Eq, Structural, Debug)]
pub enum ProbeOutcome {
    /// The file was created: the probe claimed the name.
    Created,
    /// The file already existed; an expected, retried condition.
    AlreadyExists,
    /// Any other filesystem error; immediately fatal to the call.
    OtherError,
}

/// A path-component separator.
pub open spec fn is_sep(c: char) -> bool {
    c == '/' || c == '\\'
}

/// Index of the dot that begins the extension of the final path
/// component, or a negative value when that component has none.  The
/// extension dot is the last dot of the component, and only counts when
/// it is not the component's first character, so a leading-dot name has
/// no extension.
pub open spec fn ext_dot_index(s: Seq<char>) -> int
    decreases s.len(),
{
    let n = s.len() as int;
    if n == 0 {
        -1
    } else if is_sep(s[n - 1]) {
        -1
    } else if s[n - 1] == '.' {
        if n - 2 >= 0 && !is_sep(s[n - 2]) {
            n - 1
        } else {
            -1
        }
    } else {
        ext_dot_index(s.drop_last())
    }
}

/// The path with trailing separators removed; they carry no component
/// of their own and are ignored when the extension is read.
pub open spec fn trim_seps_spec(s: Seq<char>) -> Seq<char>
    decreases s.len(),
{
    if s.len() > 0 && is_sep(s[s.len() - 1]) {
        trim_seps_spec(s.drop_last())
    } else {
        s
    }
}

/// The path with a trailing occurrence of the given extension removed
/// (trailing separators ignored, and dropped when the extension is
/// stripped), and unchanged when its final component carries no such
/// extension.
pub open spec fn strip_ext_spec(s: Seq<char>, ext: Seq<char>) -> Seq<char> {
    let t = trim_seps_spec(s);
    let d = ext_dot_index(t);
    if d >= 0 && t.subrange(d + 1, t.len() as int) == ext {
        t.subrange(0, d)
    } else {
        s
    }
}

/// Locate the extension dot of the final path component.
fn scan_ext_dot(s: &str) -> (r: Option<usize>)
    ensures
        match r {
            Some(d) => ext_dot_index(s@) == d as int && d < s@.len(),
            None => ext_dot_index(s@) == -1,
        },
    decreases s@.len(),
{
    let n = s.unicode_len();
    if n == 0 {
        None
    } else {
        let last = s.get_char(n - 1);
        if last == '/' || last == '\\' {
            None
        } else if last == '.' {
            if n >= 2 {
                let prev = s.get_char(n - 2);
                if prev == '/' || prev == '\\' {
                    None
                } else {
                    Some(n - 1)
                }
            } else {
                None
            }
        } else {
            let head = s.substring_char(0, n - 1);
            proof {
                assert(head@ =~= s@.drop_last());
            }
            scan_ext_dot(head)
        }
    }
}

/// Character-by-character string equality.
fn str_eq(a: &str, b: &str) -> (r: bool)
    ensures
        r == (a@ == b@),
{
    let na = a.unicode_len();
    let nb = b.unicode_len();
    if na != nb {
        return false;
    }
    let mut i: usize = 0;
    while i < na
        invariant
            i <= na,
            na == a@.len(),
            na == b@.len(),
            forall|j: int| 0 <= j < i ==> a@[j] == b@[j],
        decreases na - i,
    {
        if a.get_char(i) != b.get_char(i) {
            return false;
        }
        i = i + 1;
    }
    proof {
        assert(a@ =~= b@);
    }
    true
}

/// Strip a trailing occurrence of the backend's extension from a path,
/// so the backend's own re-append cannot double it.
pub fn strip_extension(path: &str, ext: &str) -> (r: String)
    ensures
        r@ == strip_ext_spec(path@, ext@),
{
    let n = path.unicode_len();
    proof {
        assert(path@.subrange(0, n as int) =~= path@);
    }
    let mut m: usize = n;
    while m > 0 && (path.get_char(m - 1) == '/' || path.get_char(m - 1) == '\\')
        invariant
            m <= n,
            n == path@.len(),
            trim_seps_spec(path@) == trim_seps_spec(path@.subrange(0, m as int)),
        decreases m,
    {
        proof {
            assert(path@.subrange(0, m as int).drop_last() =~= path@.subrange(0, m as int - 1));
            assert(trim_seps_spec(path@.subrange(0, m as int)) == trim_seps_spec(
                path@.subrange(0, m as int - 1),
            ));
        }
        m = m - 1;
    }
    proof {
        let t = path@.subrange(0, m as int);
        assert(trim_seps_spec(t) == t);
    }
    let trimmed = path.substring_char(0, m);
    proof {
        assert(trimmed@ =~= path@.subrange(0, m as int));
    }
    match scan_ext_dot(trimmed) {
        None => path.to_owned(),
        Some(d) => {
            let tail = trimmed.substring_char(d + 1, m);
            if str_eq(tail, ext) {
                String::from_str(trimmed.substring_char(0, d))
            } else {
                path.to_owned()
            }
        },
    }
}

/// The decimal digit for one value below ten.
pub open spec fn digit_char(d: int) -> char {
    if d == 0 {
        '0'
    } else if d == 1 {
        '1'
    } else if d == 2 {
        '2'
    } else if d == 3 {
        '3'
    } else if d == 4 {
        '4'
    } else if d == 5 {
        '5'
    } else if d == 6 {
        '6'
    } else if d == 7 {
        '7'
    } else if d == 8 {
        '8'
    } else {
        '9'
    }
}

/// The decimal digits of a non-negative number, most significant first.
pub open spec fn dec_digits(n: int) -> Seq<char>
    decreases n,
{
    if n < 10 {
        seq![digit_char(n)]
    } else {
        dec_digits(n / 10).push(digit_char(n % 10))
    }
}

/// A one-character string for one decimal digit.
fn digit_str(d: u32) -> (r: &'static str)
    requires
        d < 10,
    ensures
        r@ == seq![digit_char(d as int)],
{
    if d == 0 {
        proof {
            reveal_strlit("0");
            assert("0"@ =~= seq![digit_char(0)]);
        }
        "0"
    } else if d == 1 {
        proof {
            reveal_strlit("1");
            assert("1"@ =~= seq![digit_char(1)]);
        }
        "1"
    } else if d == 2 {
        proof {
            reveal_strlit("2");
            assert("2"@ =~= seq![digit_char(2)]);
        }
        "2"
    } else if d == 3 {
        proof {
            reveal_strlit("3");
            assert("3"@ =~= seq![digit_char(3)]);
        }
        "3"
    } else if d == 4 {
        proof {
            reveal_strlit("4");
            assert("4"@ =~= seq![digit_char(4)]);
        }
        "4"
    } else if d == 5 {
        proof {
            reveal_strlit("5");
            assert("5"@ =~= seq![digit_char(5)]);
        }
        "5"
    } else if d == 6 {
        proof {
            reveal_strlit("6");
            assert("6"@ =~= seq![digit_char(6)]);
        }
        "6"
    } else if d == 7 {
        proof {
            reveal_strlit("7");
            assert("7"@ =~= seq![digit_char(7)]);
        }
        "7"
    } else if d == 8 {
        proof {
            reveal_strlit("8");
            assert("8"@ =~= seq![digit_char(8)]);
        }
        "8"
    } else {
        proof {
            reveal_strlit("9");
            assert("9"@ =~= seq![digit_char(9)]);
        }
        "9"
    }
}

/// Render a number in decimal.
pub fn u32_to_decimal(n: u32) -> (r: String)
    ensures
        r@ == dec_digits(n as int),
    decreases n,
{
    if n < 10 {
        String::from_str(digit_str(n))
    } else {
        let mut r = u32_to_decimal(n / 10);
        r.append(digit_str(n % 10));
        proof {
            assert(r@ =~= dec_digits(n as int));
        }
        r
    }
}

/// The candidate path of one probe: `base.ext` for the first attempt,
/// `base.<attempt>.ext` for the numbered retries.
pub open spec fn probe_path_spec(base: Seq<char>, ext: Seq<char>, attempt: int) -> Seq<char> {
    if attempt == 0 {
        base + seq!['.'] + ext
    } else {
        base + seq!['.'] + dec_digits(attempt) + seq!['.'] + ext
    }
}

/// The session name submitted to the backend when the probe of the
/// given attempt claimed its path: the bare base for the first attempt,
/// `base.<attempt>` for a numbered retry.  The backend re-appends the
/// extension itself.
pub open spec fn session_name_spec(base: Seq<char>, attempt: int) -> Seq<char> {
    if attempt == 0 {
        base
    } else {
        base + seq!['.'] + dec_digits(attempt)
    }
}

/// Build the candidate path of one probe.
pub fn probe_path(base: &str, ext: &str, attempt: u32) -> (r: String)
    ensures
        r@ == probe_path_spec(base@, ext@, attempt as int),
{
    proof {
        reveal_strlit(".");
        assert("."@ =~= seq!['.']);
    }
    let mut r = base.to_owned();
    r.append(".");
    if attempt > 0 {
        let digits = u32_to_decimal(attempt);
        r.append(digits.as_str());
        r.append(".");
    }
    r.append(ext);
    proof {
        assert(r@ =~= probe_path_spec(base@, ext@, attempt as int));
    }
    r
}

/// Build the session name for the attempt that claimed its path.
pub fn session_name(base: &str, attempt: u32) -> (r: String)
    ensures
        r@ == session_name_spec(base@, attempt as int),
{
    let mut r = base.to_owned();
    if attempt > 0 {
        proof {
            reveal_strlit(".");
            assert("."@ =~= seq!['.']);
        }
        r.append(".");
        let digits = u32_to_decimal(attempt);
        r.append(digits.as_str());
    }
    proof {
        assert(r@ =~= session_name_spec(base@, attempt as int));
    }
    r
}

/// Which numbered probe, from `i` on, claims its path: the first
/// attempt whose probe created the file.  A taken name retries the next
/// index until the bound; any other filesystem error, or exhausting the
/// bound, fails the call.
pub open spec fn numbered_result(outcomes: Seq<ProbeOutcome>, i: int, limit: int) -> Result<
    int,
    ResultCode,
>
    decreases limit - i,
{
    if i < 1 || i > limit || i >= outcomes.len() {
        Err(ResultCode::Failed)
    } else {
        match outcomes[i] {
            ProbeOutcome::Created => Ok(i),
            ProbeOutcome::OtherError => Err(ResultCode::Failed),
            ProbeOutcome::AlreadyExists => if i >= limit {
                Err(ResultCode::Failed)
            } else {
                numbered_result(outcomes, i + 1, limit)
            },
        }
    }
}

/// The attempt the collision algorithm settles on, with a flag for an
/// overwrite of the plain name, given the outcome of each probe in
/// order: `outcomes[0]` answers the probe of `base.ext`, `outcomes[i]`
/// the probe of `base.<i>.ext`.
pub open spec fn collision_result(outcomes: Seq<ProbeOutcome>, force: bool, limit: int) -> Result<
    (int, bool),
    ResultCode,
> {
    if outcomes.len() == 0 {
        Err(ResultCode::Failed)
    } else {
        match outcomes[0] {
            ProbeOutcome::Created => Ok((0, false)),
            ProbeOutcome::OtherError => Err(ResultCode::Failed),
            ProbeOutcome::AlreadyExists => if force {
                Ok((0, true))
            } else {
                match numbered_result(outcomes, 1, limit) {
                    Ok(i) => Ok((i, false)),
                    Err(e) => Err(e),
                }
            },
        }
    }
}

/// Resolve the session name for a desired output path.
///
/// The extension is stripped from `output` first; the probes then
/// answer for `base.ext`, `base.1.ext`, ... in order.  On success the
/// name the backend is to receive comes back, with `true` when an
/// existing `base.ext` is to be overwritten because `force` was set.
pub fn session_output_name(
    output: &str,
    ext: &str,
    force: bool,
    limit: u32,
    probes: &Vec<ProbeOutcome>,
) -> (r: Result<(String, bool), ResultCode>)
    requires
        1 <= limit,
        probes@.len() > limit,
    ensures
        ({
            let base = strip_ext_spec(output@, ext@);
            match collision_result(probes@, force, limit as int) {
                Ok(sel) => r is Ok && r->Ok_0.0@ == session_name_spec(base, sel.0) && r->Ok_0.1
                    == sel.1,
                Err(e) => r == Err::<(String, bool), ResultCode>(e),
            }
        }),
{
    let base = strip_extension(output, ext);
    match probes[0] {
        ProbeOutcome::Created => Ok((base, false)),
        ProbeOutcome::OtherError => Err(ResultCode::Failed),
        ProbeOutcome::AlreadyExists => {
            if force {
                Ok((base, true))
            } else {
                let mut i: u32 = 1;
                loop
                    invariant
                        1 <= i <= limit,
                        probes@.len() > limit,
                        !force,
                        probes@[0] == ProbeOutcome::AlreadyExists,
                        base@ == strip_ext_spec(output@, ext@),
                        numbered_result(probes@, 1, limit as int) == numbered_result(
                            probes@,
                            i as int,
                            limit as int,
                        ),
                    decreases limit - i,
                {
                    match probes[i as usize] {
                        ProbeOutcome::Created => {
                            return Ok((session_name(base.as_str(), i), false));
                        },
                        ProbeOutcome::OtherError => {
                            return Err(ResultCode::Failed);
                        },
                        ProbeOutcome::AlreadyExists => {
                            if i >= limit {
                                return Err(ResultCode::Failed);
                            }
                            i = i + 1;
                        },
                    }
                }
            }
        },
    }
}

/// One in-progress claim of a session output name, driven one probe at
/// a time: the embedder performs the atomic create-if-absent probe of
/// the path this state names, and feeds the outcome to [`Self::advance`].
pub struct SessionFileProber {
    /// Output path with the backend's extension already stripped.
    pub base: String,
    /// The backend-owned report extension, without its dot.
    pub ext: String,
    /// Whether an existing plain `base.ext` is to be overwritten.
    pub force: bool,
    /// Bound on numbered probe attempts.
    pub limit: u32,
    /// The attempt whose candidate path is to be probed next.
    pub attempt: u32,
}

/// What one probe outcome decides: the name is claimed, the call fails,
/// or the returned candidate path is to be probed next.
pub enum ProbeStep {
    /// The session name to submit, and whether an existing output file
    /// is to be overwritten.
    Claimed { name: String, overwrote: bool },
    /// The claim failed with this code.
    Rejected(ResultCode),
    /// Probe this candidate path and advance again.
    NextProbe(String),
}

impl SessionFileProber {
    /// Start a claim for the desired output path; the returned string
    /// is the first candidate path to probe.
    pub fn start(output: &str, ext: &str, force: bool, limit: u32) -> (r: (
        SessionFileProber,
        String,
    ))
        requires
            1 <= limit,
        ensures
            r.0.base@ == strip_ext_spec(output@, ext@),
            r.0.ext@ == ext@,
            r.0.force == force,
            r.0.limit == limit,
            r.0.attempt == 0,
            r.1@ == probe_path_spec(strip_ext_spec(output@, ext@), ext@, 0),
    {
        let base = strip_extension(output, ext);
        let first = probe_path(base.as_str(), ext, 0);
        let prober = SessionFileProber { base, ext: ext.to_owned(), force, limit, attempt: 0 };
        (prober, first)
    }

    /// Advance the claim by the outcome of the probe of the current
    /// candidate path.
    ///
    /// A created file claims the name of the current attempt.  A taken
    /// plain name is overwritten when forced, otherwise the numbered
    /// retries run up to the bound.  Any other filesystem error, and an
    /// exhausted bound, reject the claim with `Failed`.
    pub fn advance(&mut self, outcome: ProbeOutcome) -> (step: ProbeStep)
        requires
            old(self).attempt <= old(self).limit,
        ensures
            final(self).base == old(self).base,
            final(self).ext == old(self).ext,
            final(self).force == old(self).force,
            final(self).limit == old(self).limit,
            outcome == ProbeOutcome::Created ==> final(self).attempt == old(self).attempt && (
            step matches ProbeStep::Claimed { name, overwrote } && name@ == session_name_spec(
                old(self).base@,
                old(self).attempt as int,
            ) && !overwrote),
            outcome == ProbeOutcome::OtherError ==> final(self).attempt == old(self).attempt
                && step == ProbeStep::Rejected(ResultCode::Failed),
            outcome == ProbeOutcome::AlreadyExists && old(self).attempt == 0 && old(self).force
                ==> final(self).attempt == old(self).attempt && (
            step matches ProbeStep::Claimed { name, overwrote } && name@ == old(self).base@
                && overwrote),
            outcome == ProbeOutcome::AlreadyExists && !(old(self).attempt == 0 && old(
                self,
            ).force) && old(self).attempt < old(self).limit ==> final(self).attempt == old(
                self,
            ).attempt + 1 && (step matches ProbeStep::NextProbe(path) && path@ == probe_path_spec(
                old(self).base@,
                old(self).ext@,
                old(self).attempt + 1,
            )),
            outcome == ProbeOutcome::AlreadyExists && !(old(self).attempt == 0 && old(
                self,
            ).force) && old(self).attempt >= old(self).limit ==> final(self).attempt == old(
                self,
            ).attempt && step == ProbeStep::Rejected(ResultCode::Failed),
    {
        match outcome {
            ProbeOutcome::Created => {
                let name = session_name(self.base.as_str(), self.attempt);
                ProbeStep::Claimed { name, overwrote: false }
            },
            ProbeOutcome::OtherError => ProbeStep::Rejected(ResultCode::Failed),
            ProbeOutcome::AlreadyExists => {
                if self.attempt == 0 && self.force {
                    let name = self.base.clone();
                    ProbeStep::Claimed { name, overwrote: true }
                } else if self.attempt < self.limit {
                    self.attempt = self.attempt + 1;
                    ProbeStep::NextProbe(
                        probe_path(self.base.as_str(), self.ext.as_str(), self.attempt),
                    )
                } else {
                    ProbeStep::Rejected(ResultCode::Failed)
                }
            },
        }
    }
}

} // verus!
