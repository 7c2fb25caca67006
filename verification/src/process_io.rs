//! Trusted boundary to the process-spawning substrate (the `duct` crate) and
//! to the buffered line reading of `std::io`.
//!
//! Everything here is believed, not verified: each item's contract states only
//! what the outside source plainly shows.

use vstd::prelude::*;

verus! {

/// `duct::Expression`: a not-yet-running command chain.
#[verifier::external_type_specification]
#[verifier::external_body]
pub struct ExExpression(duct::Expression);

/// `duct::ReaderHandle`: the streaming, killable handle of a started chain.
#[verifier::external_type_specification]
#[verifier::external_body]
pub struct ExReaderHandle(duct::ReaderHandle);

/// `std::io::Error`: the operating-system error observers may report.
#[verifier::external_type_specification]
#[verifier::external_body]
pub struct ExIoError(std::io::Error);

/// `std::io::BufReader`: buffering around the handle, for line-wise reads.
#[verifier::external_type_specification]
#[verifier::external_body]
#[verifier::reject_recursive_types(R)]
pub struct ExBufReader<R: ?Sized>(std::io::BufReader<R>);

/// The ordered command chain an expression stands for: one argv list
/// (a sequence of token character sequences) per pipeline stage.
pub uninterp spec fn expr_cmds(e: duct::Expression) -> Seq<Seq<Seq<char>>>;

/// Relies on `std::sync::Arc::clone`: the clone shares the allocation of the
/// original, so it carries the very same value.
#[verifier::external_body]
pub(crate) fn arc_clone<T>(a: &std::sync::Arc<T>) -> (res: std::sync::Arc<T>)
    ensures
        res == *a,
{
    std::sync::Arc::clone(a)
}

/// Relies on `duct::cmd`: builds a one-command expression from the program
/// (the first token) and its argument tokens, with no shell interpretation.
#[verifier::external_body]
pub(crate) fn duct_cmd(argv: &Vec<String>) -> (e: duct::Expression)
    requires
        argv@.len() >= 1,
    ensures
        expr_cmds(e) == seq![argv.deep_view()],
{
    duct::cmd(argv[0].as_str(), argv[1..].iter().cloned())
}

/// Relies on `duct::Expression::pipe`: connects two expressions so the left
/// one's output feeds the right one; the chain is their concatenation.
#[verifier::external_body]
pub(crate) fn duct_pipe(left: duct::Expression, right: duct::Expression) -> (e: duct::Expression)
    ensures
        expr_cmds(e) == expr_cmds(left) + expr_cmds(right),
{
    left.pipe(right)
}

/// Relies on `duct::Expression::stderr_to_stdout`: joins the standard error of
/// an expression to its standard output pipe; the command chain is unchanged.
#[verifier::external_body]
pub(crate) fn duct_stderr_to_stdout(e: &duct::Expression) -> (r: duct::Expression)
    ensures
        expr_cmds(r) == expr_cmds(*e),
{
    e.stderr_to_stdout()
}

/// Relies on `duct::Expression::reader`: starts the expression's processes and
/// returns a streaming handle to their output.  Whether the start succeeds
/// depends on the machine (whether the first program can be spawned), so
/// nothing is promised of the outcome; a failure is rendered into a
/// diagnostic string.
#[verifier::external_body]
pub(crate) fn duct_reader(e: &duct::Expression) -> (r: Result<duct::ReaderHandle, String>) {
    match e.reader() {
        Ok(handle) => Ok(handle),
        Err(error) => Err(format!("{:?}", error)),
    }
}

/// Relies on `duct::ReaderHandle::kill`: sends a kill signal to every child
/// process of the running expression.  Success depends on the machine, so
/// nothing is promised of the outcome.
#[verifier::external_body]
pub(crate) fn reader_kill(reader: &duct::ReaderHandle) -> (r: Result<(), std::io::Error>) {
    reader.kill()
}

/// Relies on `duct::ReaderHandle::pids`: the ids of the expression's child
/// processes, in pipeline order.  The ids are chosen by the operating system,
/// so nothing is promised of them.
#[verifier::external_body]
pub(crate) fn reader_pids(reader: &duct::ReaderHandle) -> (r: Vec<u32>) {
    reader.pids()
}

/// Relies on `std::io::BufReader::new`: wraps the handle in a buffered
/// reader; the stream's content is untouched.
#[verifier::external_body]
pub(crate) fn buf_reader_new<'a>(
    reader: &'a duct::ReaderHandle,
) -> (r: std::io::BufReader<&'a duct::ReaderHandle>) {
    std::io::BufReader::new(reader)
}

/// Relies on `std::io::BufRead::read_line`: appends one line of the stream,
/// up to and including the next newline, to `line`; `Ok(0)` means the stream
/// has ended and nothing was appended.  A read failure is rendered into a
/// diagnostic string.
#[verifier::external_body]
pub(crate) fn read_one_line(
    reader: &mut std::io::BufReader<&duct::ReaderHandle>,
    line: &mut String,
) -> (r: Result<usize, String>)
    ensures
        r matches Ok(n) ==> old(line)@.is_prefix_of(final(line)@),
        r matches Ok(n) && n == 0 ==> final(line)@ == old(line)@,
        r matches Ok(n) && n > 0 ==> final(line)@.len() > old(line)@.len(),
{
    match std::io::BufRead::read_line(reader, line) {
        Ok(n) => Ok(n),
        Err(error) => Err(format!("{:?}", error)),
    }
}

} // verus!
