//! Validation of identifiers, git arguments, paths and limits.
//!
//! These checks guard the host's command and database layer against
//! injection: every argument that reaches a spawned command or a query is
//! validated here first. Each validator states exactly which inputs it
//! accepts and which error each rejected input produces.

use vstd::prelude::*;

verus! {

use vstd::string::StringSliceAdditionalSpecFns;

broadcast use vstd::slice::group_slice_axioms;

/// Why an input was rejected.
#[derive(Debug, Clone, Copy, PartialEq, Eq, Structural)]
pub enum ValidationError {
    /// The input (or its meaningful part) is empty.
    Empty,
    /// The input exceeds its maximum length.
    TooLong,
    /// The input's length is outside its allowed range.
    LengthOutOfRange,
    /// The input holds a character outside its allowlist.
    InvalidCharacter,
    /// The input holds a shell metacharacter.
    UnsafeCharacter,
    /// The input looks like an option flag (`--...`).
    UnsafeFlag,
    /// The input starts with a character that git treats specially.
    DangerousStart,
    /// The input holds a `..` path segment.
    PathTraversal,
    /// The input ends with the reserved `.lock` suffix.
    LockSuffix,
    /// The input holds a NUL byte.
    NullByte,
    /// The input must be a relative path.
    AbsolutePath,
    /// The numeric input is zero.
    Zero,
    /// The numeric input exceeds its maximum.
    TooLarge,
}

/// Maximum byte length of an identifier.
pub const MAX_ID_LENGTH: usize = 256;
/// Maximum byte length of a branch name.
pub const MAX_BRANCH_LENGTH: usize = 256;
/// Maximum byte length of a commit message.
pub const MAX_MESSAGE_LENGTH: usize = 10000;
/// Maximum value of a count limit.
pub const MAX_LIMIT: u32 = 1000;

/// Whether `char::is_alphanumeric` holds of `c`: membership in the Unicode
/// Alphabetic or Number categories, a function of the character alone.
pub uninterp spec fn char_is_alphanumeric(c: char) -> bool;

/// Relies on `char::is_alphanumeric`: Unicode alphanumeric test, a pure
/// function of the character.
#[verifier::external_body]
fn is_alphanumeric_char(c: char) -> (r: bool)
    ensures
        r == char_is_alphanumeric(c),
{
    c.is_alphanumeric()
}

/// Whether `char::is_whitespace` holds of `c`: membership in the Unicode
/// White_Space category, a function of the character alone.
pub uninterp spec fn char_is_whitespace(c: char) -> bool;

/// Relies on `char::is_whitespace`: Unicode whitespace test, a pure function
/// of the character.
#[verifier::external_body]
pub(crate) fn is_whitespace_char(c: char) -> (r: bool)
    ensures
        r == char_is_whitespace(c),
{
    c.is_whitespace()
}

/// Relies on `String::push`: appends the character to the end of the string.
#[verifier::external_body]
fn push_char(s: &mut String, c: char)
    ensures
        final(s)@ == old(s)@.push(c),
{
    s.push(c)
}

/// A character allowed in an identifier: Unicode alphanumeric, `-` or `_`.
pub open spec fn id_char_ok(c: char) -> bool {
    char_is_alphanumeric(c) || c == '-' || c == '_'
}

/// A valid identifier: at most `MAX_ID_LENGTH` bytes, non-empty, and made of
/// allowed characters only.
pub open spec fn id_ok(s: &str) -> bool {
    &&& s.spec_bytes().len() <= MAX_ID_LENGTH
    &&& s@.len() > 0
    &&& forall|i: int| 0 <= i < s@.len() ==> id_char_ok(#[trigger] s@[i])
}

/// Validate an identifier (project, session or thread id): non-empty, at
/// most `MAX_ID_LENGTH` bytes, alphanumeric plus `-` and `_`. The field name
/// only labels the caller's diagnostics; it does not affect the outcome.
pub fn validate_id(id: &str, _field_name: &str) -> (r: Result<(), ValidationError>)
    ensures
        r == Ok::<(), ValidationError>(()) <==> id_ok(id),
        r == Err::<(), ValidationError>(ValidationError::TooLong) <==> id.spec_bytes().len()
            > MAX_ID_LENGTH,
        r == Err::<(), ValidationError>(ValidationError::Empty) <==> (id.spec_bytes().len()
            <= MAX_ID_LENGTH && id@.len() == 0),
        r == Err::<(), ValidationError>(ValidationError::InvalidCharacter) <==> (id.spec_bytes().len()
            <= MAX_ID_LENGTH && id@.len() > 0 && exists|i: int|
            0 <= i < id@.len() && !id_char_ok(#[trigger] id@[i])),
    {
    if id.as_bytes().len() > MAX_ID_LENGTH {
        return Err(ValidationError::TooLong);
    }
    if id.is_empty() {
        return Err(ValidationError::Empty);
    }
    let n = id.unicode_len();
    let mut i: usize = 0;
    while i < n
        invariant
            n == id@.len(),
            i <= n,
            id.spec_bytes().len() <= MAX_ID_LENGTH,
            id@.len() > 0,
            forall|j: int| 0 <= j < i ==> id_char_ok(#[trigger] id@[j]),
        decreases n - i,
    {
        let c = id.get_char(i);
        if !(is_alphanumeric_char(c) || c == '-' || c == '_') {
            assert(!id_char_ok(id@[i as int]));
            return Err(ValidationError::InvalidCharacter);
        }
        i = i + 1;
    }
    Ok(())
}

/// A shell metacharacter or control character that is unsafe in a command
/// argument.
pub open spec fn shell_dangerous_char(c: char) -> bool {
    ||| c == '\n'
    ||| c == '\r'
    ||| c == '\0'
    ||| c == '|'
    ||| c == '&'
    ||| c == ';'
    ||| c == '$'
    ||| c == '`'
    ||| c == '('
    ||| c == ')'
    ||| c == '<'
    ||| c == '>'
    ||| c == '\\'
}

/// Whether the argument would be taken for an option flag: it starts with
/// `--` and is not the bare `--` separator.
pub open spec fn arg_flag_unsafe(s: Seq<char>) -> bool {
    s.len() >= 3 && s[0] == '-' && s[1] == '-'
}

/// A string safe to pass as a command argument: free of shell
/// metacharacters, and not an option flag.
pub open spec fn arg_safe(s: &str) -> bool {
    &&& forall|i: int| 0 <= i < s@.len() ==> !shell_dangerous_char(#[trigger] s@[i])
    &&& !arg_flag_unsafe(s@)
}

fn shell_dangerous(c: char) -> (r: bool)
    ensures
        r == shell_dangerous_char(c),
{
    c == '\n' || c == '\r' || c == '\0' || c == '|' || c == '&' || c == ';' || c == '$' || c == '`'
        || c == '(' || c == ')' || c == '<' || c == '>' || c == '\\'
}

/// Validate a string for use as a command argument: no shell metacharacters
/// or control characters, and no `--` option prefix (the bare `--` separator
/// is allowed). Empty arguments are allowed.
pub fn validate_arg_safe(arg: &str) -> (r: Result<(), ValidationError>)
    ensures
        r == Ok::<(), ValidationError>(()) <==> arg_safe(arg),
        r == Err::<(), ValidationError>(ValidationError::UnsafeCharacter) <==> exists|i: int|
            0 <= i < arg@.len() && shell_dangerous_char(#[trigger] arg@[i]),
        r == Err::<(), ValidationError>(ValidationError::UnsafeFlag) <==> ((forall|i: int|
            0 <= i < arg@.len() ==> !shell_dangerous_char(#[trigger] arg@[i])) && arg_flag_unsafe(
            arg@,
        )),
    {
    let n = arg.unicode_len();
    let mut i: usize = 0;
    while i < n
        invariant
            n == arg@.len(),
            i <= n,
            forall|j: int| 0 <= j < i ==> !shell_dangerous_char(#[trigger] arg@[j]),
        decreases n - i,
    {
        let c = arg.get_char(i);
        if shell_dangerous(c) {
            return Err(ValidationError::UnsafeCharacter);
        }
        i = i + 1;
    }
    if n >= 3 && arg.get_char(0) == '-' && arg.get_char(1) == '-' {
        return Err(ValidationError::UnsafeFlag);
    }
    Ok(())
}

/// An ASCII letter or digit.
pub open spec fn ascii_alphanumeric(c: char) -> bool {
    ('a' <= c && c <= 'z') || ('A' <= c && c <= 'Z') || ('0' <= c && c <= '9')
}

/// A character allowed in a branch name: ASCII alphanumeric, `_`, `-`, `.`
/// or `/`.
pub open spec fn branch_char_ok(c: char) -> bool {
    ascii_alphanumeric(c) || c == '_' || c == '-' || c == '.' || c == '/'
}

/// Whether `..` occurs anywhere in the sequence.
pub open spec fn contains_dotdot(s: Seq<char>) -> bool {
    exists|i: int| 0 <= i && i + 2 <= s.len() && #[trigger] s[i] == '.' && s[i + 1] == '.'
}

/// Whether the sequence ends with `.lock`.
pub open spec fn ends_with_lock(s: Seq<char>) -> bool {
    s.len() >= 5 && s[s.len() - 5] == '.' && s[s.len() - 4] == 'l' && s[s.len() - 3] == 'o' && s[
        s.len() - 2] == 'c' && s[s.len() - 1] == 'k'
}

/// A valid branch name: non-empty, at most `MAX_BRANCH_LENGTH` bytes, made
/// of allowed characters, not starting with `-` or `.`, free of `..`, and
/// not ending with `.lock`.
pub open spec fn branch_ok(s: &str) -> bool {
    &&& s@.len() > 0
    &&& s.spec_bytes().len() <= MAX_BRANCH_LENGTH
    &&& forall|i: int| 0 <= i < s@.len() ==> branch_char_ok(#[trigger] s@[i])
    &&& s@[0] != '-' && s@[0] != '.'
    &&& !contains_dotdot(s@)
    &&& !ends_with_lock(s@)
}

fn branch_char(c: char) -> (r: bool)
    ensures
        r == branch_char_ok(c),
{
    ('a' <= c && c <= 'z') || ('A' <= c && c <= 'Z') || ('0' <= c && c <= '9') || c == '_' || c
        == '-' || c == '.' || c == '/'
}

/// Validate a git branch name against a strict allowlist, to keep malicious
/// names out of spawned git commands: ASCII alphanumerics plus `_`, `-`, `.`
/// and `/`, with no leading `-` or `.`, no `..`, and no `.lock` suffix.
pub fn validate_branch_name(branch: &str) -> (r: Result<(), ValidationError>)
    ensures
        r == Ok::<(), ValidationError>(()) <==> branch_ok(branch),
        r == Err::<(), ValidationError>(ValidationError::Empty) <==> branch@.len() == 0,
        r == Err::<(), ValidationError>(ValidationError::TooLong) <==> (branch@.len() > 0
            && branch.spec_bytes().len() > MAX_BRANCH_LENGTH),
        r == Err::<(), ValidationError>(ValidationError::InvalidCharacter) <==> (branch@.len() > 0
            && branch.spec_bytes().len() <= MAX_BRANCH_LENGTH && exists|i: int|
            0 <= i < branch@.len() && !branch_char_ok(#[trigger] branch@[i])),
        r == Err::<(), ValidationError>(ValidationError::DangerousStart) <==> (branch@.len() > 0
            && branch.spec_bytes().len() <= MAX_BRANCH_LENGTH && (forall|i: int|
            0 <= i < branch@.len() ==> branch_char_ok(#[trigger] branch@[i])) && (branch@[0] == '-'
            || branch@[0] == '.')),
        r == Err::<(), ValidationError>(ValidationError::PathTraversal) <==> (branch@.len() > 0
            && branch.spec_bytes().len() <= MAX_BRANCH_LENGTH && (forall|i: int|
            0 <= i < branch@.len() ==> branch_char_ok(#[trigger] branch@[i])) && branch@[0] != '-'
            && branch@[0] != '.' && contains_dotdot(branch@)),
        r == Err::<(), ValidationError>(ValidationError::LockSuffix) <==> (branch@.len() > 0
            && branch.spec_bytes().len() <= MAX_BRANCH_LENGTH && (forall|i: int|
            0 <= i < branch@.len() ==> branch_char_ok(#[trigger] branch@[i])) && branch@[0] != '-'
            && branch@[0] != '.' && !contains_dotdot(branch@) && ends_with_lock(branch@)),
    {
    if branch.is_empty() {
        return Err(ValidationError::Empty);
    }
    if branch.as_bytes().len() > MAX_BRANCH_LENGTH {
        return Err(ValidationError::TooLong);
    }
    let n = branch.unicode_len();
    let mut i: usize = 0;
    while i < n
        invariant
            n == branch@.len(),
            i <= n,
            branch@.len() > 0,
            branch.spec_bytes().len() <= MAX_BRANCH_LENGTH,
            forall|j: int| 0 <= j < i ==> branch_char_ok(#[trigger] branch@[j]),
        decreases n - i,
    {
        if !branch_char(branch.get_char(i)) {
            return Err(ValidationError::InvalidCharacter);
        }
        i = i + 1;
    }
    let first = branch.get_char(0);
    if first == '-' || first == '.' {
        return Err(ValidationError::DangerousStart);
    }
    let mut i: usize = 0;
    while i < n
        invariant
            n == branch@.len(),
            i <= n,
            branch@.len() > 0,
            branch.spec_bytes().len() <= MAX_BRANCH_LENGTH,
            branch@[0] != '-' && branch@[0] != '.',
            forall|j: int| 0 <= j < n ==> branch_char_ok(#[trigger] branch@[j]),
            forall|j: int|
                0 <= j < i && j + 2 <= n ==> !(#[trigger] branch@[j] == '.' && branch@[j + 1]
                    == '.'),
        decreases n - i,
    {
        if n - i >= 2 && branch.get_char(i) == '.' && branch.get_char(i + 1) == '.' {
            return Err(ValidationError::PathTraversal);
        }
        i = i + 1;
    }
    assert(!contains_dotdot(branch@));
    if n >= 5 && branch.get_char(n - 5) == '.' && branch.get_char(n - 4) == 'l' && branch.get_char(
        n - 3,
    ) == 'o' && branch.get_char(n - 2) == 'c' && branch.get_char(n - 1) == 'k' {
        return Err(ValidationError::LockSuffix);
    }
    Ok(())
}

/// An ASCII hexadecimal digit.
pub open spec fn ascii_hex_digit(c: char) -> bool {
    ('0' <= c && c <= '9') || ('a' <= c && c <= 'f') || ('A' <= c && c <= 'F')
}

/// A valid commit SHA: hexadecimal only, 7 to 64 bytes (short SHAs are 7+,
/// full SHAs 40 or 64).
pub open spec fn sha_ok(s: &str) -> bool {
    &&& forall|i: int| 0 <= i < s@.len() ==> ascii_hex_digit(#[trigger] s@[i])
    &&& 7 <= s.spec_bytes().len() <= 64
}

/// Validate a git commit SHA: hexadecimal characters only, between 7 and 64
/// of them.
pub fn validate_commit_sha(sha: &str) -> (r: Result<(), ValidationError>)
    ensures
        r == Ok::<(), ValidationError>(()) <==> sha_ok(sha),
        r == Err::<(), ValidationError>(ValidationError::InvalidCharacter) <==> exists|i: int|
            0 <= i < sha@.len() && !ascii_hex_digit(#[trigger] sha@[i]),
        r == Err::<(), ValidationError>(ValidationError::LengthOutOfRange) <==> ((forall|i: int|
            0 <= i < sha@.len() ==> ascii_hex_digit(#[trigger] sha@[i])) && !(7
            <= sha.spec_bytes().len() <= 64)),
    {
    let n = sha.unicode_len();
    let mut i: usize = 0;
    while i < n
        invariant
            n == sha@.len(),
            i <= n,
            forall|j: int| 0 <= j < i ==> ascii_hex_digit(#[trigger] sha@[j]),
        decreases n - i,
    {
        let c = sha.get_char(i);
        if !(('0' <= c && c <= '9') || ('a' <= c && c <= 'f') || ('A' <= c && c <= 'F')) {
            return Err(ValidationError::InvalidCharacter);
        }
        i = i + 1;
    }
    let len = sha.as_bytes().len();
    if len < 7 || len > 64 {
        return Err(ValidationError::LengthOutOfRange);
    }
    Ok(())
}

/// A git file path argument that is safe to hand to a spawned git command:
/// non-empty, no NUL byte, and safe as a command argument.
pub open spec fn git_file_path_ok(s: &str) -> bool {
    &&& s@.len() > 0
    &&& !s@.contains('\0')
    &&& arg_safe(s)
}

/// Validate a file path for use in git commands: non-empty, free of NUL
/// bytes, and safe as a command argument.
pub fn validate_git_file_path(path: &str) -> (r: Result<(), ValidationError>)
    ensures
        r == Ok::<(), ValidationError>(()) <==> git_file_path_ok(path),
        r == Err::<(), ValidationError>(ValidationError::Empty) <==> path@.len() == 0,
        r == Err::<(), ValidationError>(ValidationError::NullByte) <==> (path@.len() > 0
            && path@.contains('\0')),
        r == Err::<(), ValidationError>(ValidationError::UnsafeCharacter) <==> (path@.len() > 0
            && !path@.contains('\0') && exists|i: int|
            0 <= i < path@.len() && shell_dangerous_char(#[trigger] path@[i])),
        r == Err::<(), ValidationError>(ValidationError::UnsafeFlag) <==> (path@.len() > 0
            && !path@.contains('\0') && (forall|i: int|
            0 <= i < path@.len() ==> !shell_dangerous_char(#[trigger] path@[i])) && arg_flag_unsafe(
            path@,
        )),
    {
    if path.is_empty() {
        return Err(ValidationError::Empty);
    }
    let n = path.unicode_len();
    let mut i: usize = 0;
    while i < n
        invariant
            n == path@.len(),
            i <= n,
            forall|j: int| 0 <= j < i ==> path@[j] != '\0',
        decreases n - i,
    {
        if path.get_char(i) == '\0' {
            assert(path@.contains('\0'));
            return Err(ValidationError::NullByte);
        }
        i = i + 1;
    }
    assert(!path@.contains('\0'));
    validate_arg_safe(path)
}

/// A `..` segment of a `/`-separated path: `..` bounded by separators or the
/// ends of the path.
pub open spec fn dotdot_segment_at(s: Seq<char>, i: int) -> bool {
    &&& 0 <= i && i + 2 <= s.len()
    &&& s[i] == '.' && s[i + 1] == '.'
    &&& (i == 0 || s[i - 1] == '/')
    &&& (i + 2 == s.len() || s[i + 2] == '/')
}

/// The path with every `\` turned into `/`.
pub open spec fn normalized_path(s: Seq<char>) -> Seq<char> {
    s.map_values(
        |c: char|
            if c == '\\' {
                '/'
            } else {
                c
            },
    )
}

/// A valid project-relative path: non-empty, free of NUL bytes, and — after
/// normalizing `\` to `/` — neither absolute (leading `/` or a drive letter
/// `X:`) nor holding a `..` segment.
pub open spec fn relative_path_ok(s: &str) -> bool {
    let norm = normalized_path(s@);
    &&& s@.len() > 0
    &&& !s@.contains('\0')
    &&& norm[0] != '/'
    &&& !(norm.len() >= 2 && norm[1] == ':')
    &&& !(exists|i: int| dotdot_segment_at(norm, i))
}

/// Validate a project-relative file path and return its normalized form
/// (`\` replaced by `/`): the path must be non-empty, free of NUL bytes,
/// relative (no leading `/`, no drive letter), and free of `..` segments.
pub fn validate_relative_project_path(path: &str) -> (r: Result<String, ValidationError>)
    ensures
        r matches Ok(p) ==> relative_path_ok(path) && p@ == normalized_path(path@),
        r is Ok <==> relative_path_ok(path),
        r == Err::<String, ValidationError>(ValidationError::Empty) <==> path@.len() == 0,
        r == Err::<String, ValidationError>(ValidationError::NullByte) <==> (path@.len() > 0
            && path@.contains('\0')),
        r == Err::<String, ValidationError>(ValidationError::AbsolutePath) <==> (path@.len() > 0
            && !path@.contains('\0') && (normalized_path(path@)[0] == '/' || (path@.len() >= 2
            && normalized_path(path@)[1] == ':'))),
        r == Err::<String, ValidationError>(ValidationError::PathTraversal) <==> (path@.len() > 0
            && !path@.contains('\0') && normalized_path(path@)[0] != '/' && !(path@.len() >= 2
            && normalized_path(path@)[1] == ':') && (exists|i: int|
            dotdot_segment_at(normalized_path(path@), i))),
    {
    if path.is_empty() {
        return Err(ValidationError::Empty);
    }
    let n = path.unicode_len();
    let mut i: usize = 0;
    while i < n
        invariant
            n == path@.len(),
            i <= n,
            forall|j: int| 0 <= j < i ==> path@[j] != '\0',
        decreases n - i,
    {
        if path.get_char(i) == '\0' {
            assert(path@.contains('\0'));
            return Err(ValidationError::NullByte);
        }
        i = i + 1;
    }
    assert(!path@.contains('\0'));
    let mut normalized = String::new();
    let mut i: usize = 0;
    while i < n
        invariant
            n == path@.len(),
            i <= n,
            path@.len() > 0,
            !path@.contains('\0'),
            normalized@ == normalized_path(path@.subrange(0, i as int)),
        decreases n - i,
    {
        let c = path.get_char(i);
        if c == '\\' {
            push_char(&mut normalized, '/');
        } else {
            push_char(&mut normalized, c);
        }
        proof {
            assert(normalized@ =~= normalized_path(path@.subrange(0, i + 1 as int)));
        }
        i = i + 1;
    }
    proof {
        assert(path@.subrange(0, n as int) =~= path@);
        assert(normalized@ =~= normalized_path(path@));
    }
    if normalized.as_str().get_char(0) == '/' {
        return Err(ValidationError::AbsolutePath);
    }
    if n >= 2 && normalized.as_str().get_char(1) == ':' {
        return Err(ValidationError::AbsolutePath);
    }
    let norm = normalized.as_str();
    let mut i: usize = 0;
    while i < n
        invariant
            n == norm@.len(),
            norm@ == normalized@,
            norm@ == normalized_path(path@),
            i <= n,
            path@.len() > 0,
            !path@.contains('\0'),
            norm@[0] != '/',
            !(norm@.len() >= 2 && norm@[1] == ':'),
            forall|j: int| 0 <= j < i ==> !dotdot_segment_at(norm@, j),
        decreases n - i,
    {
        if n - i >= 2 && norm.get_char(i) == '.' && norm.get_char(i + 1) == '.' && (i == 0
            || norm.get_char(i - 1) == '/') && (i + 2 == n || norm.get_char(i + 2) == '/') {
            assert(dotdot_segment_at(norm@, i as int));
            return Err(ValidationError::PathTraversal);
        }
        proof {
            if i + 2 > n {
                assert(!dotdot_segment_at(norm@, i as int));
            }
        }
        i = i + 1;
    }
    proof {
        assert(forall|j: int| dotdot_segment_at(norm@, j) ==> 0 <= j < n);
        assert(!(exists|i: int| dotdot_segment_at(norm@, i)));
    }
    Ok(normalized)
}

/// A valid commit message: not all whitespace, at most `MAX_MESSAGE_LENGTH`
/// bytes, and free of NUL bytes.
pub open spec fn commit_message_ok(s: &str) -> bool {
    &&& !(forall|i: int| 0 <= i < s@.len() ==> char_is_whitespace(#[trigger] s@[i]))
    &&& s.spec_bytes().len() <= MAX_MESSAGE_LENGTH
    &&& !s@.contains('\0')
}

/// Validate a git commit message: it must hold a non-whitespace character,
/// fit in `MAX_MESSAGE_LENGTH` bytes, and hold no NUL byte.
pub fn validate_commit_message(message: &str) -> (r: Result<(), ValidationError>)
    ensures
        r == Ok::<(), ValidationError>(()) <==> commit_message_ok(message),
        r == Err::<(), ValidationError>(ValidationError::Empty) <==> (forall|i: int|
            0 <= i < message@.len() ==> char_is_whitespace(#[trigger] message@[i])),
        r == Err::<(), ValidationError>(ValidationError::TooLong) <==> (!(forall|i: int|
            0 <= i < message@.len() ==> char_is_whitespace(#[trigger] message@[i]))
            && message.spec_bytes().len() > MAX_MESSAGE_LENGTH),
        r == Err::<(), ValidationError>(ValidationError::NullByte) <==> (!(forall|i: int|
            0 <= i < message@.len() ==> char_is_whitespace(#[trigger] message@[i]))
            && message.spec_bytes().len() <= MAX_MESSAGE_LENGTH && message@.contains('\0')),
    {
    let n = message.unicode_len();
    let mut i: usize = 0;
    let mut all_ws = true;
    while i < n
        invariant
            n == message@.len(),
            i <= n,
            all_ws == (forall|j: int| 0 <= j < i ==> char_is_whitespace(#[trigger] message@[j])),
        decreases n - i,
    {
        if !is_whitespace_char(message.get_char(i)) {
            all_ws = false;
            proof {
                assert(!char_is_whitespace(message@[i as int]));
            }
        }
        i = i + 1;
    }
    if all_ws {
        return Err(ValidationError::Empty);
    }
    if message.as_bytes().len() > MAX_MESSAGE_LENGTH {
        return Err(ValidationError::TooLong);
    }
    let mut i: usize = 0;
    while i < n
        invariant
            n == message@.len(),
            i <= n,
            !(forall|j: int| 0 <= j < n ==> char_is_whitespace(#[trigger] message@[j])),
            message.spec_bytes().len() <= MAX_MESSAGE_LENGTH,
            forall|j: int| 0 <= j < i ==> message@[j] != '\0',
        decreases n - i,
    {
        if message.get_char(i) == '\0' {
            assert(message@.contains('\0'));
            return Err(ValidationError::NullByte);
        }
        i = i + 1;
    }
    assert(!message@.contains('\0'));
    Ok(())
}

/// Whether every character of `query` appears, in order, within `target`:
/// the empty query matches everything; a non-empty query matches when the
/// target's first character either consumes the query's first character or
/// is skipped.
pub open spec fn fuzzy_matches(target: Seq<char>, query: Seq<char>) -> bool
    decreases target.len(),
{
    if query.len() == 0 {
        true
    } else if target.len() == 0 {
        false
    } else if target[0] == query[0] {
        fuzzy_matches(target.skip(1), query.skip(1))
    } else {
        fuzzy_matches(target.skip(1), query)
    }
}

/// Simple fuzzy match: whether all characters of `query` appear in order in
/// `target`.
pub fn fuzzy_match(target: &str, query: &str) -> (r: bool)
    ensures
        r == fuzzy_matches(target@, query@),
    {
    let tn = target.unicode_len();
    let qn = query.unicode_len();
    let mut ti: usize = 0;
    let mut qi: usize = 0;
    proof {
        assert(target@.skip(0) =~= target@);
        assert(query@.skip(0) =~= query@);
    }
    while qi < qn
        invariant
            tn == target@.len(),
            qn == query@.len(),
            ti <= tn,
            qi <= qn,
            fuzzy_matches(target@, query@) == fuzzy_matches(
                target@.skip(ti as int),
                query@.skip(qi as int),
            ),
        decreases qn - qi, tn - ti,
    {
        if ti >= tn {
            proof {
                assert(target@.skip(ti as int).len() == 0);
                assert(query@.skip(qi as int).len() > 0);
            }
            return false;
        }
        let tc = target.get_char(ti);
        let qc = query.get_char(qi);
        proof {
            assert(target@.skip(ti as int)[0] == target@[ti as int]);
            assert(query@.skip(qi as int)[0] == query@[qi as int]);
            assert(target@.skip(ti as int).skip(1) =~= target@.skip(ti + 1 as int));
            assert(query@.skip(qi as int).skip(1) =~= query@.skip(qi + 1 as int));
        }
        if tc == qc {
            ti = ti + 1;
            qi = qi + 1;
        } else {
            ti = ti + 1;
        }
    }
    proof {
        assert(query@.skip(qi as int).len() == 0);
        assert(fuzzy_matches(target@.skip(ti as int), query@.skip(qi as int)));
    }
    true
}

/// Validate a count limit: positive and at most `MAX_LIMIT`.
pub fn validate_limit(limit: u32) -> (r: Result<u32, ValidationError>)
    ensures
        r == Ok::<u32, ValidationError>(limit) <==> 1 <= limit <= MAX_LIMIT,
        r == Err::<u32, ValidationError>(ValidationError::Zero) <==> limit == 0,
        r == Err::<u32, ValidationError>(ValidationError::TooLarge) <==> limit > MAX_LIMIT,
    {
    if limit == 0 {
        return Err(ValidationError::Zero);
    }
    if limit > MAX_LIMIT {
        return Err(ValidationError::TooLarge);
    }
    Ok(limit)
}

} // verus!
