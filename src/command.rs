use vstd::prelude::*;

use crate::error::LVMError;

verus! {

/// The exit code with which LVM2 reports that the requested resource does not exist.
pub const EXIT_NOT_FOUND: i32 = 5;

/// One run of the LVM2 binary: a subcommand and the arguments that follow the
/// machine-readable report format.
#[derive(Clone, Debug)]
pub struct Invocation {
    pub command: String,
    pub args: Vec<String>,
}

/// The views of a list of strings.
pub open spec fn texts(v: Seq<String>) -> Seq<Seq<char>> {
    v.map_values(|s: String| s@)
}

impl Invocation {
    /// Every argument handed to the LVM2 binary: the subcommand, `--reportformat json`,
    /// then the invocation's own arguments.
    pub open spec fn spec_argv(&self) -> Seq<Seq<char>> {
        seq![self.command@, "--reportformat"@, "json"@] + texts(self.args@)
    }

    /// Builds [Invocation::spec_argv].
    pub fn argv(&self) -> (r: Vec<String>)
        ensures
            texts(r@) == self.spec_argv(),
    {
        let mut r: Vec<String> = Vec::new();
        r.push(self.command.clone());
        r.push(String::from_str("--reportformat"));
        r.push(String::from_str("json"));
        let n = self.args.len();
        for i in 0..n
            invariant
                n == self.args@.len(),
                r@.len() == 3 + i,
                r@[0]@ == self.command@,
                r@[1]@ == "--reportformat"@,
                r@[2]@ == "json"@,
                forall|j: int| 0 <= j < i ==> (#[trigger] r@[3 + j])@ == self.args@[j]@,
        {
            r.push(self.args[i].clone());
        }
        proof {
            assert forall|k: int| 0 <= k < r@.len() implies #[trigger] texts(r@)[k]
                == self.spec_argv()[k] by {
                if k >= 3 {
                    assert(r@[3 + (k - 3)]@ == self.args@[k - 3]@);
                }
            }
            assert(texts(r@) =~= self.spec_argv());
        }
        r
    }
}

/// What a process that ran to the end left behind.
#[derive(Clone, Debug)]
pub struct ProcessOutput {
    /// The exit code; `None` where a signal ended the process.
    pub exit_code: Option<i32>,
    pub stdout: Vec<u8>,
    pub stderr: Vec<u8>,
}

/// The text that `String::from_utf8_lossy` makes of `bytes`.
pub uninterp spec fn lossy_text(bytes: Seq<u8>) -> Seq<char>;

/// A character with the Unicode White_Space property.
pub open spec fn is_white_space(c: char) -> bool {
    ('\u{9}' <= c && c <= '\u{d}') || c == ' ' || c == '\u{85}' || c == '\u{a0}' || c
        == '\u{1680}' || ('\u{2000}' <= c && c <= '\u{200a}') || c == '\u{2028}' || c
        == '\u{2029}' || c == '\u{202f}' || c == '\u{205f}' || c == '\u{3000}'
}

/// `s` without its leading white space.
pub open spec fn trim_start(s: Seq<char>) -> Seq<char>
    decreases s.len(),
{
    if s.len() > 0 && is_white_space(s[0]) {
        trim_start(s.drop_first())
    } else {
        s
    }
}

/// `s` without its trailing white space.
pub open spec fn trim_end(s: Seq<char>) -> Seq<char>
    decreases s.len(),
{
    if s.len() > 0 && is_white_space(s.last()) {
        trim_end(s.drop_last())
    } else {
        s
    }
}

/// `s` without its leading and trailing white space.
pub open spec fn trimmed(s: Seq<char>) -> Seq<char> {
    trim_end(trim_start(s))
}

/// Relies on String::from_utf8_lossy: the text depends on the bytes alone, and valid
/// UTF-8 decodes as itself.
#[verifier::external_body]
fn utf8_lossy(bytes: &[u8]) -> (r: String)
    ensures
        r@ == lossy_text(bytes@),
        vstd::utf8::valid_utf8(bytes@) ==> r@ == vstd::utf8::decode_utf8(bytes@),
{
    String::from_utf8_lossy(bytes).into_owned()
}

/// Relies on str::trim: the text without the leading and trailing characters that have the
/// Unicode White_Space property.
#[verifier::external_body]
fn trim(s: &str) -> (r: String)
    ensures
        r@ == trimmed(s@),
{
    s.trim().to_owned()
}

/// How a process that did not succeed is reported: exit code 5 is the last argument not
/// being found, and any other failure is the command's error with its trimmed stderr.
pub open spec fn failure_matches(inv: &Invocation, out: &ProcessOutput, e: &LVMError) -> bool {
    if out.exit_code == Some(EXIT_NOT_FOUND) {
        e matches LVMError::NotFound { resource } && resource@ == inv.spec_argv().last()
    } else {
        e matches LVMError::Command { command, args, message } && command@ == inv.command@
            && texts(args@) == inv.spec_argv() && message@ == trimmed(
            lossy_text(out.stderr@),
        )
    }
}

/// Whether the process succeeded.
pub open spec fn succeeded(out: &ProcessOutput) -> bool {
    out.exit_code == Some(0i32)
}

/// Checks how the process ended.
pub fn check_status(inv: &Invocation, out: &ProcessOutput) -> (r: Result<(), LVMError>)
    ensures
        r is Ok <==> succeeded(out),
        r matches Err(e) ==> failure_matches(inv, out, &e),
{
    match out.exit_code {
        Some(0) => Ok(()),
        Some(EXIT_NOT_FOUND) => {
            let mut argv = inv.argv();
            assert(argv@.len() == texts(argv@).len());
            let resource = argv.pop().unwrap();
            assert(texts(argv@).push(resource@) =~= inv.spec_argv());
            Err(LVMError::NotFound { resource })
        },
        _ => {
            let stderr = utf8_lossy(out.stderr.as_slice());
            let message = trim(stderr.as_str());
            Err(LVMError::Command { command: inv.command.clone(), args: inv.argv(), message })
        },
    }
}

/// std's UTF-8 error, of which only the message is read.
#[verifier::external_type_specification]
#[verifier::external_body]
pub struct ExUtf8Error(std::str::Utf8Error);

/// Relies on std::str::from_utf8: it accepts exactly the valid UTF-8 byte sequences and
/// decodes them.
#[verifier::external_body]
fn str_from_utf8(bytes: &[u8]) -> (r: Result<String, std::str::Utf8Error>)
    ensures
        r is Ok <==> vstd::utf8::valid_utf8(bytes@),
        r matches Ok(s) ==> s@ == vstd::utf8::decode_utf8(bytes@),
{
    match std::str::from_utf8(bytes) {
        Ok(s) => Ok(s.to_owned()),
        Err(e) => Err(e),
    }
}

/// A malformed-output error with this cause.
pub open spec fn is_malformed(e: &LVMError, cause: Seq<char>) -> bool {
    e matches LVMError::MalformedOutput { cause: c, .. } && c@ == cause
}

/// The text on stdout of a process that succeeded.
pub fn output_text(inv: &Invocation, out: &ProcessOutput) -> (r: Result<String, LVMError>)
    ensures
        r is Ok <==> succeeded(out) && vstd::utf8::valid_utf8(out.stdout@),
        r matches Ok(t) ==> t@ == vstd::utf8::decode_utf8(out.stdout@),
        !succeeded(out) ==> (r matches Err(e) && failure_matches(inv, out, &e)),
        succeeded(out) && !vstd::utf8::valid_utf8(out.stdout@) ==> (r matches Err(e)
            && is_malformed(&e, "could not decode command output from UTF-8"@)),
{
    match check_status(inv, out) {
        Ok(()) => {},
        Err(e) => return Err(e),
    }
    match str_from_utf8(out.stdout.as_slice()) {
        Ok(text) => Ok(text),
        Err(e) => Err(
            LVMError::MalformedOutput {
                cause: String::from_str("could not decode command output from UTF-8"),
                result: e.to_string(),
            },
        ),
    }
}

/// Whether a command that reports nothing succeeded: it exited with 0 and wrote UTF-8.
pub open spec fn check_mutation_ok(out: &ProcessOutput) -> bool {
    succeeded(out) && vstd::utf8::valid_utf8(out.stdout@)
}

/// The error of a command that reports nothing and did not succeed.
pub open spec fn mutation_error(inv: &Invocation, out: &ProcessOutput, e: &LVMError) -> bool {
    if !succeeded(out) {
        failure_matches(inv, out, e)
    } else {
        is_malformed(e, "could not decode command output from UTF-8"@)
    }
}

/// Checks the outcome of a command that reports nothing: it succeeded and wrote UTF-8.
pub fn check_mutation(inv: &Invocation, out: &ProcessOutput) -> (r: Result<(), LVMError>)
    ensures
        r is Ok <==> check_mutation_ok(out),
        r matches Err(e) ==> mutation_error(inv, out, &e),
{
    match output_text(inv, out) {
        Ok(_) => Ok(()),
        Err(e) => Err(e),
    }
}

/// Appends an owned copy of `s` to `v`.
pub fn push_str(v: &mut Vec<String>, s: &str)
    ensures
        texts(final(v)@) == texts(old(v)@).push(s@),
{
    v.push(String::from_str(s));
    proof {
        assert(texts(v@) =~= texts(old(v)@).push(s@));
    }
}

/// Appends owned copies of `items` to `v`.
pub fn push_all(v: &mut Vec<String>, items: &Vec<String>)
    ensures
        texts(final(v)@) == texts(old(v)@) + texts(items@),
{
    let n = items.len();
    for i in 0..n
        invariant
            n == items@.len(),
            texts(v@) == texts(old(v)@) + texts(items@.subrange(0, i as int)),
    {
        let ghost prev = v@;
        v.push(items[i].clone());
        proof {
            assert(texts(v@) =~= texts(prev).push(items@[i as int]@));
            assert(texts(items@.subrange(0, i + 1)) =~= texts(items@.subrange(0, i as int)).push(
                items@[i as int]@,
            ));
            assert(texts(v@) =~= texts(old(v)@) + texts(items@.subrange(0, i + 1)));
        }
    }
    proof {
        assert(items@.subrange(0, n as int) =~= items@);
    }
}

/// The options of every report query: no locking, every field of `all`, sizes in bytes
/// without a unit suffix.
pub open spec fn report_options(all: Seq<char>) -> Seq<Seq<char>> {
    seq!["--nolocking"@, "--options"@, all, "--units"@, "b"@, "--nosuffix"@]
}

/// Builds [report_options].
pub fn report_options_of(all: &str) -> (r: Vec<String>)
    ensures
        texts(r@) == report_options(all@),
{
    let mut r: Vec<String> = Vec::new();
    push_str(&mut r, "--nolocking");
    push_str(&mut r, "--options");
    push_str(&mut r, all);
    push_str(&mut r, "--units");
    push_str(&mut r, "b");
    push_str(&mut r, "--nosuffix");
    proof {
        assert(texts(r@) =~= report_options(all@));
    }
    r
}

} // verus!
