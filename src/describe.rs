//! The context formatter: how resource descriptors are rendered into context layers.
use vstd::prelude::*;

verus! {

/// Descriptors longer than this many characters are shortened for display.
pub const LONG_STRING_DISPLAY_LIMIT: usize = 80;

/// Characters kept from the start of a shortened descriptor.
pub const KEPT_PREFIX_LEN: usize = 40;

/// Characters kept from the end of a shortened descriptor.
pub const KEPT_SUFFIX_LEN: usize = 37;

/// The marker spliced between the kept prefix and suffix.
pub open spec fn ellipsis_marker() -> Seq<char> {
    seq!['\u{2772}', '\u{2026}', '\u{2773}']
}

/// A descriptor as displayed: unchanged up to the limit, else its first
/// `KEPT_PREFIX_LEN` characters, the marker, and its last `KEPT_SUFFIX_LEN` characters.
pub open spec fn truncated(s: Seq<char>) -> Seq<char> {
    if s.len() <= LONG_STRING_DISPLAY_LIMIT {
        s
    } else {
        s.subrange(0, KEPT_PREFIX_LEN as int) + ellipsis_marker() + s.subrange(
            s.len() - KEPT_SUFFIX_LEN,
            s.len() as int,
        )
    }
}

/// Every overlong descriptor is shown at the same width, the limit, whatever its own
/// length: its first `KEPT_PREFIX_LEN` characters, the three-character marker, then its
/// last `KEPT_SUFFIX_LEN` characters.
pub proof fn lemma_truncated_width(a: Seq<char>, b: Seq<char>)
    requires
        a.len() > LONG_STRING_DISPLAY_LIMIT,
        b.len() > LONG_STRING_DISPLAY_LIMIT,
    ensures
        truncated(a).len() == LONG_STRING_DISPLAY_LIMIT,
        truncated(a).len() == truncated(b).len(),
        truncated(a).subrange(0, KEPT_PREFIX_LEN as int) == a.subrange(0, KEPT_PREFIX_LEN as int),
        truncated(a).subrange(KEPT_PREFIX_LEN as int, KEPT_PREFIX_LEN + 3) == ellipsis_marker(),
        truncated(a).subrange(KEPT_PREFIX_LEN + 3, LONG_STRING_DISPLAY_LIMIT as int) == a.subrange(
            a.len() - KEPT_SUFFIX_LEN,
            a.len() as int,
        ),
{
    let t = truncated(a);
    assert(t.subrange(0, KEPT_PREFIX_LEN as int) =~= a.subrange(0, KEPT_PREFIX_LEN as int));
    assert(t.subrange(KEPT_PREFIX_LEN as int, KEPT_PREFIX_LEN + 3) =~= ellipsis_marker());
    assert(t.subrange(KEPT_PREFIX_LEN + 3, LONG_STRING_DISPLAY_LIMIT as int) =~= a.subrange(
        a.len() - KEPT_SUFFIX_LEN,
        a.len() as int,
    ));
}

/// Shortens an overlong descriptor for display, keeping its start and end.
pub fn truncate_long_strings(s: &str) -> (r: String)
    ensures
        r@ == truncated(s@),
        s@.len() > LONG_STRING_DISPLAY_LIMIT ==> r@.len() == LONG_STRING_DISPLAY_LIMIT,
{
    let n = s.unicode_len();
    if n <= LONG_STRING_DISPLAY_LIMIT {
        s.to_owned()
    } else {
        let marker = "\u{2772}\u{2026}\u{2773}";
        proof {
            reveal_strlit("\u{2772}\u{2026}\u{2773}");
        }
        let mut r = s.substring_char(0, KEPT_PREFIX_LEN).to_owned();
        r.append(marker);
        r.append(s.substring_char(n - KEPT_SUFFIX_LEN, n));
        assert(marker@ =~= ellipsis_marker());
        r
    }
}

/// The `Debug` rendering of a string: quoted, with special characters escaped.
pub uninterp spec fn debug_str(s: Seq<char>) -> Seq<char>;

/// Relies on `<str as Debug>::fmt`, which quotes the text and escapes special characters.
#[verifier::external_body]
pub(crate) fn quoted(s: &str) -> (r: String)
    ensures
        r@ == debug_str(s@),
{
    format!("{:?}", s)
}

/// The ten decimal digits, in order.
pub open spec fn decimal_digit_chars() -> Seq<char> {
    seq!['0', '1', '2', '3', '4', '5', '6', '7', '8', '9']
}

/// The decimal digits of a natural number, most significant first.
pub open spec fn digits_of(n: nat) -> Seq<char>
    decreases n,
{
    if n < 10 {
        seq![decimal_digit_chars()[n as int]]
    } else {
        digits_of(n / 10).push(decimal_digit_chars()[(n % 10) as int])
    }
}

/// The decimal text of an integer, with a leading `-` below zero.
pub open spec fn decimal_text(i: int) -> Seq<char> {
    if i < 0 {
        seq!['-'] + digits_of((-i) as nat)
    } else {
        digits_of(i as nat)
    }
}

/// Relies on `<i32 as Display>::fmt` (through `to_string`): the decimal digits, with a
/// leading `-` for a negative number.
#[verifier::external_body]
pub(crate) fn decimal(i: i32) -> (r: String)
    ensures
        r@ == decimal_text(i as int),
{
    i.to_string()
}

/// The context layer for an OS string that is not valid UTF-8, given its lossy text.
pub open spec fn os_string_context_text(lossy: Seq<char>) -> Seq<char> {
    "while processing os string "@ + debug_str(truncated(lossy))
}

/// Builds the context layer for an OS string from its lossy text.
pub fn os_string_context(lossy: &str) -> (r: String)
    ensures
        r@ == os_string_context_text(lossy@),
{
    let shown = truncate_long_strings(lossy);
    let q = quoted(shown.as_str());
    let mut r = "while processing os string ".to_owned();
    r.append(q.as_str());
    r
}

/// The context layer for a path, given the path's `Debug` text.
pub open spec fn path_context_text(path_debug: Seq<char>) -> Seq<char> {
    "while processing path "@ + path_debug
}

/// Builds the context layer for a path from its `Debug` text.
pub fn path_context(path_debug: &str) -> (r: String)
    ensures
        r@ == path_context_text(path_debug@),
{
    let mut r = "while processing path ".to_owned();
    r.append(path_debug);
    r
}

/// The context layer for the second operand of a binary operation (`with to "b"`).
pub open spec fn operand_context_text(name: Seq<char>, operand_debug: Seq<char>) -> Seq<char> {
    "with "@ + name + " "@ + operand_debug
}

/// Builds the context layer for a named operand from its `Debug` text.
pub fn operand_context(name: &str, operand_debug: &str) -> (r: String)
    ensures
        r@ == operand_context_text(name@, operand_debug@),
{
    let mut r = "with ".to_owned();
    r.append(name);
    r.append(" ");
    r.append(operand_debug);
    r
}

/// The context layer for a failure while writing to a path.
pub open spec fn writing_context_text(path_debug: Seq<char>) -> Seq<char> {
    "while writing to "@ + path_debug
}

/// Builds the context layer for a write to a path, from the path's `Debug` text.
pub fn writing_context(path_debug: &str) -> (r: String)
    ensures
        r@ == writing_context_text(path_debug@),
{
    let mut r = "while writing to ".to_owned();
    r.append(path_debug);
    r
}

/// The context layer for a failure while listing a directory.
pub open spec fn directory_context_text(path_debug: Seq<char>) -> Seq<char> {
    "while reading directory "@ + path_debug
}

/// Builds the context layer for a directory listing, from the directory's `Debug` text.
pub fn directory_context(path_debug: &str) -> (r: String)
    ensures
        r@ == directory_context_text(path_debug@),
{
    let mut r = "while reading directory ".to_owned();
    r.append(path_debug);
    r
}

/// The context layer for an environment variable, given the lossy text of its name.
pub open spec fn env_context_text(key: Seq<char>) -> Seq<char> {
    "environment variable "@ + debug_str(key)
}

/// Builds the context layer for an environment variable from the lossy text of its name.
pub fn env_context(key: &str) -> (r: String)
    ensures
        r@ == env_context_text(key@),
{
    let q = quoted(key);
    let mut r = "environment variable ".to_owned();
    r.append(q.as_str());
    r
}

/// The context layer for a command, given the command's `Debug` text.
pub open spec fn command_context_text(command_debug: Seq<char>) -> Seq<char> {
    "command: "@ + command_debug
}

/// Builds the context layer for a command from its `Debug` text.
pub fn command_context(command_debug: &str) -> (r: String)
    ensures
        r@ == command_context_text(command_debug@),
{
    let mut r = "command: ".to_owned();
    r.append(command_debug);
    r
}

} // verus!
