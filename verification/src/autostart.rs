//! The machine-wide autostart entry: how the Run value is written, how a registered
//! value is read back and classified, and the elevated helper's arguments.
//!
//! Paths follow Windows rules: drive-letter or UNC absolute paths, case-insensitive
//! ASCII comparison, and either slash as separator.

use vstd::prelude::*;
use vstd::string::{StrSliceExecFns, StringExecFns};
use vstd::bytes::{
    lemma_auto_spec_u16_to_from_le_bytes, spec_u16_from_le_bytes, spec_u16_to_le_bytes,
    u16_from_le_bytes, u16_to_le_bytes,
};
use vstd::slice::slice_subrange;
use vstd::utf8::{char_is_scalar, char_u32_cast};

use crate::text::{
    chars_of, decimal, has_prefix, push_decimal, push_str, str_equals, string_from_chars,
};

verus! {

/// Fixed value name of the Steady Ink entry under the Run key.
pub const AUTOSTART_VALUE_NAME: &'static str = "Steady Ink";
/// The all-users Run subkey in the 64-bit registry view.
pub const AUTOSTART_SUBKEY: &'static str = "Software\\Microsoft\\Windows\\CurrentVersion\\Run";
/// The only switch that starts the elevated helper mode.
pub const HELPER_SWITCH: &'static str = "--machine-autostart";

/// The state of the machine-wide autostart entry.
#[derive(Debug, Clone, Copy, PartialEq, Eq, Structural)]
pub enum MachineAutostartState {
    /// The value does not exist.
    Disabled,
    /// The value exists and points at the current executable.
    Enabled,
    /// The value exists but points elsewhere; enabling again repairs it.
    EnabledPathMismatch,
}

impl MachineAutostartState {
    /// Whether the registry value exists; a mismatching path still counts as enabled.
    pub fn enabled(self) -> (enabled: bool)
        ensures
            enabled == !(self is Disabled),
    {
        match self {
            MachineAutostartState::Disabled => false,
            _ => true,
        }
    }

    /// The status text that the settings page shows.
    pub fn label(self) -> (label: &'static str)
        ensures
            self is Disabled ==> label@ == "当前已关闭"@,
            self is Enabled ==> label@ == "当前已开启"@,
            self is EnabledPathMismatch ==> label@ == "已开启，但路径需要修复"@,
    {
        match self {
            MachineAutostartState::Disabled => "当前已关闭",
            MachineAutostartState::Enabled => "当前已开启",
            MachineAutostartState::EnabledPathMismatch => "已开启，但路径需要修复",
        }
    }
}

/// The diagnosable failures of the autostart boundary.
#[derive(Debug, Clone, PartialEq, Eq)]
pub enum AutostartError {
    CurrentExecutable(String),
    InvalidExecutablePath(String),
    Registry(String),
    Elevation(String),
    HelperExitCode(u32),
    InvalidHelperArguments,
    UnsupportedPlatform,
}

/// The text that the settings page shows for an autostart failure.
pub open spec fn autostart_error_text(error: AutostartError) -> Seq<char> {
    match error {
        AutostartError::CurrentExecutable(detail) => "无法获取当前可执行文件路径: "@ + detail@,
        AutostartError::InvalidExecutablePath(path) => "可执行文件路径无效: "@ + path@,
        AutostartError::Registry(detail) => "注册表操作失败: "@ + detail@,
        AutostartError::Elevation(detail) => "请求管理员权限失败或已取消: "@ + detail@,
        AutostartError::HelperExitCode(code) => "提权辅助进程退出码为 "@ + decimal(code as nat),
        AutostartError::InvalidHelperArguments => "开机启动辅助参数无效"@,
        AutostartError::UnsupportedPlatform => "当前平台不支持系统级开机启动"@,
    }
}

impl AutostartError {
    /// The failure as the text the settings page shows.
    pub fn message(&self) -> (text: String)
        ensures
            text@ == autostart_error_text(*self),
    {
        let mut chars: Vec<char> = Vec::new();
        match self {
            AutostartError::CurrentExecutable(detail) => {
                push_str(&mut chars, "无法获取当前可执行文件路径: ");
                push_str(&mut chars, detail.as_str());
            },
            AutostartError::InvalidExecutablePath(path) => {
                push_str(&mut chars, "可执行文件路径无效: ");
                push_str(&mut chars, path.as_str());
            },
            AutostartError::Registry(detail) => {
                push_str(&mut chars, "注册表操作失败: ");
                push_str(&mut chars, detail.as_str());
            },
            AutostartError::Elevation(detail) => {
                push_str(&mut chars, "请求管理员权限失败或已取消: ");
                push_str(&mut chars, detail.as_str());
            },
            AutostartError::HelperExitCode(code) => {
                push_str(&mut chars, "提权辅助进程退出码为 ");
                push_decimal(&mut chars, *code as u128);
            },
            AutostartError::InvalidHelperArguments => {
                push_str(&mut chars, "开机启动辅助参数无效");
            },
            AutostartError::UnsupportedPlatform => {
                push_str(&mut chars, "当前平台不支持系统级开机启动");
            },
        }
        assert(chars@ =~= autostart_error_text(*self));
        string_from_chars(&chars)
    }
}

/// `c` has the Unicode White_Space property, which `char::is_whitespace` tests:
/// U+0009 to U+000D, U+0020, U+0085, U+00A0, U+1680, U+2000 to U+200A, U+2028,
/// U+2029, U+202F, U+205F and U+3000.
pub open spec fn char_is_whitespace(c: char) -> bool {
    let u = c as u32;
    ||| 0x9 <= u <= 0xd
    ||| u == 0x20
    ||| u == 0x85
    ||| u == 0xa0
    ||| u == 0x1680
    ||| 0x2000 <= u <= 0x200a
    ||| u == 0x2028
    ||| u == 0x2029
    ||| u == 0x202f
    ||| u == 0x205f
    ||| u == 0x3000
}

/// Whether `c` is Unicode white space, as `char::is_whitespace` decides it.
fn is_whitespace(c: char) -> (res: bool)
    ensures
        res == char_is_whitespace(c),
{
    let u = c as u32;
    (0x9 <= u && u <= 0xd) || u == 0x20 || u == 0x85 || u == 0xa0 || u == 0x1680 || (0x2000 <= u
        && u <= 0x200a) || u == 0x2028 || u == 0x2029 || u == 0x202f || u == 0x205f || u == 0x3000
}

/// `c` separates path components on Windows.
pub open spec fn is_separator(c: char) -> bool {
    c == '\\' || c == '/'
}

/// `c` is an ASCII letter.
pub open spec fn is_ascii_letter(c: char) -> bool {
    ('a' <= c && c <= 'z') || ('A' <= c && c <= 'Z')
}

/// The index of the first separator in `s`.
pub open spec fn first_separator(s: Seq<char>) -> Option<nat>
    decreases s.len(),
{
    if s.len() == 0 {
        None
    } else if is_separator(s[0]) {
        Some(0)
    } else {
        match first_separator(s.drop_first()) {
            Some(i) => Some(i + 1),
            None => None,
        }
    }
}

/// What follows the two leading separators names a server and a share: a
/// non-empty component, a separator, and a non-empty component.
pub open spec fn names_server_and_share(rest: Seq<char>) -> bool {
    match first_separator(rest) {
        Some(i) => 0 < i && i + 1 < rest.len() && !is_separator(rest[i + 1 as int]),
        None => false,
    }
}

/// The path is absolute on Windows, as `Path::is_absolute` decides there: a drive
/// letter with a root (`C:\`); a verbatim path (`\\?\`, written with backslashes);
/// a device path (`\\.\`); or a UNC path whose server and share are both named.
pub open spec fn is_windows_absolute(path: Seq<char>) -> bool {
    ||| (path.len() >= 3 && is_ascii_letter(path[0]) && path[1] == ':' && is_separator(path[2]))
    ||| (path.len() >= 4 && path[0] == '\\' && path[1] == '\\' && path[2] == '?' && path[3]
        == '\\')
    ||| (path.len() >= 4 && is_separator(path[0]) && is_separator(path[1]) && path[2] == '.'
        && is_separator(path[3]))
    ||| (path.len() >= 2 && is_separator(path[0]) && is_separator(path[1])
        && names_server_and_share(path.skip(2)))
}

/// The quoted command that the Run value holds for `path`, or why it is refused.
pub open spec fn spec_format_run_command(path: Seq<char>) -> Result<Seq<char>, ()> {
    if path.len() == 0 || !is_windows_absolute(path) || path.contains('"') || path.contains(
        '\0',
    ) {
        Err(())
    } else {
        Ok(seq!['"'] + path + seq!['"'])
    }
}

/// The first separator at or after `from`.
fn find_separator(path: &Vec<char>, from: usize) -> (found: Option<usize>)
    requires
        from <= path@.len(),
    ensures
        found matches Some(k) ==> from <= k < path@.len() && first_separator(
            path@.skip(from as int),
        ) == Some((k - from) as nat),
        found is None ==> first_separator(path@.skip(from as int)) is None,
{
    let mut i: usize = from;
    while i < path.len()
        invariant
            from <= i <= path@.len(),
            first_separator(path@.skip(from as int)) == (match first_separator(
                path@.skip(i as int),
            ) {
                Some(k) => Some((k + (i - from)) as nat),
                None => None,
            }),
        decreases path@.len() - i,
    {
        assert(path@.skip(i as int)[0] == path@[i as int]);
        if path[i] == '\\' || path[i] == '/' {
            return Some(i);
        }
        assert(path@.skip(i as int).drop_first() =~= path@.skip(i + 1));
        i = i + 1;
    }
    assert(path@.skip(i as int).len() == 0);
    None
}

/// Whether a Windows path is absolute.
fn windows_path_is_absolute(path: &Vec<char>) -> (absolute: bool)
    ensures
        absolute == is_windows_absolute(path@),
{
    let drive = path.len() >= 3 && (('a' <= path[0] && path[0] <= 'z') || ('A' <= path[0]
        && path[0] <= 'Z')) && path[1] == ':' && (path[2] == '\\' || path[2] == '/');
    if drive {
        return true;
    }
    if path.len() < 2 || !(path[0] == '\\' || path[0] == '/') || !(path[1] == '\\' || path[1]
        == '/') {
        return false;
    }
    if path.len() >= 4 && path[0] == '\\' && path[1] == '\\' && path[2] == '?' && path[3]
        == '\\' {
        return true;
    }
    if path.len() >= 4 && path[2] == '.' && (path[3] == '\\' || path[3] == '/') {
        return true;
    }
    let ghost rest = path@.skip(2);
    match find_separator(path, 2) {
        None => false,
        Some(end) => {
            assert(first_separator(rest) == Some((end - 2) as nat));
            assert(end + 1 < path@.len() ==> rest[end - 1] == path@[end + 1]);
            end > 2 && end + 1 < path.len() && !(path[end + 1] == '\\' || path[end + 1] == '/')
        },
    }
}

/// Whether the characters contain `c`.
fn contains_char(chars: &Vec<char>, c: char) -> (found: bool)
    ensures
        found == chars@.contains(c),
{
    let mut i: usize = 0;
    while i < chars.len()
        invariant
            i <= chars@.len(),
            forall|k: int| 0 <= k < i ==> chars@[k] != c,
        decreases chars@.len() - i,
    {
        if chars[i] == c {
            assert(chars@[i as int] == c);
            return true;
        }
        i = i + 1;
    }
    false
}

/// Formats the executable path as the quoted command of the Run value; the path must
/// be absolute and free of quotes and NUL characters.
pub fn format_run_command(path: &str) -> (res: Result<String, AutostartError>)
    ensures
        match spec_format_run_command(path@) {
            Ok(command) => res matches Ok(s) && s@ == command,
            Err(()) => res matches Err(AutostartError::InvalidExecutablePath(p)) && p@ == path@,
        },
{
    let chars = chars_of(path);
    if chars.len() == 0 || !windows_path_is_absolute(&chars) || contains_char(&chars, '"')
        || contains_char(&chars, '\0') {
        return Err(AutostartError::InvalidExecutablePath(String::from_str(path)));
    }
    let mut quoted: Vec<char> = Vec::new();
    quoted.push('"');
    let mut i: usize = 0;
    while i < chars.len()
        invariant
            chars@ == path@,
            i <= chars@.len(),
            quoted@ == seq!['"'] + chars@.subrange(0, i as int),
        decreases chars@.len() - i,
    {
        quoted.push(chars[i]);
        i = i + 1;
        assert(quoted@ =~= seq!['"'] + chars@.subrange(0, i as int));
    }
    quoted.push('"');
    assert(quoted@ =~= seq!['"'] + path@ + seq!['"']);
    Ok(string_from_chars(&quoted))
}

/// The number of whitespace characters at the start of `s`.
pub open spec fn leading_whitespace(s: Seq<char>) -> nat
    decreases s.len(),
{
    if s.len() > 0 && char_is_whitespace(s[0]) {
        1 + leading_whitespace(s.drop_first())
    } else {
        0
    }
}

/// The number of whitespace characters at the end of `s`.
pub open spec fn trailing_whitespace(s: Seq<char>) -> nat
    decreases s.len(),
{
    if s.len() > 0 && char_is_whitespace(s.last()) {
        1 + trailing_whitespace(s.drop_last())
    } else {
        0
    }
}

/// The number of non-whitespace characters at the start of `s`.
pub open spec fn leading_token(s: Seq<char>) -> nat
    decreases s.len(),
{
    if s.len() > 0 && !char_is_whitespace(s[0]) {
        1 + leading_token(s.drop_first())
    } else {
        0
    }
}

/// `s` without whitespace at either end, as `str::trim` gives it.
pub open spec fn trimmed(s: Seq<char>) -> Seq<char> {
    let rest = s.skip(leading_whitespace(s) as int);
    rest.take(rest.len() - trailing_whitespace(rest))
}

/// The index of the first `c` in `s`.
pub open spec fn first_index_of(s: Seq<char>, c: char) -> Option<nat>
    decreases s.len(),
{
    if s.len() == 0 {
        None
    } else if s[0] == c {
        Some(0)
    } else {
        match first_index_of(s.drop_first(), c) {
            Some(i) => Some(i + 1),
            None => None,
        }
    }
}

/// The executable path at the start of a Run value: the text between the first two
/// quotes when it starts with one, else its first whitespace-separated word.
pub open spec fn spec_parse_registered_command(command: Seq<char>) -> Option<Seq<char>> {
    let t = trimmed(command);
    if t.len() == 0 {
        None
    } else if t[0] == '"' {
        match first_index_of(t.drop_first(), '"') {
            Some(end) => Some(t.drop_first().take(end as int)),
            None => None,
        }
    } else {
        Some(t.take(leading_token(t) as int))
    }
}

/// Counts the whitespace at the start of `s[from..]`.
fn count_leading_whitespace(s: &Vec<char>, from: usize) -> (count: usize)
    requires
        from <= s@.len(),
    ensures
        count == leading_whitespace(s@.skip(from as int)),
        from + count <= s@.len(),
{
    let mut i: usize = from;
    while i < s.len() && is_whitespace(s[i])
        invariant
            from <= i <= s@.len(),
            leading_whitespace(s@.skip(from as int)) == (i - from) + leading_whitespace(
                s@.skip(i as int),
            ),
        decreases s@.len() - i,
    {
        assert(s@.skip(i as int).drop_first() =~= s@.skip(i + 1));
        i = i + 1;
    }
    i - from
}

/// Counts the non-whitespace at the start of `s[from..]`.
fn count_leading_token(s: &Vec<char>, from: usize) -> (count: usize)
    requires
        from <= s@.len(),
    ensures
        count == leading_token(s@.skip(from as int)),
        from + count <= s@.len(),
{
    let mut i: usize = from;
    while i < s.len() && !is_whitespace(s[i])
        invariant
            from <= i <= s@.len(),
            leading_token(s@.skip(from as int)) == (i - from) + leading_token(s@.skip(i as int)),
        decreases s@.len() - i,
    {
        assert(s@.skip(i as int).drop_first() =~= s@.skip(i + 1));
        i = i + 1;
    }
    i - from
}

/// Counts the whitespace at the end of `s[from..to]`.
fn count_trailing_whitespace(s: &Vec<char>, from: usize, to: usize) -> (count: usize)
    requires
        from <= to <= s@.len(),
    ensures
        count == trailing_whitespace(s@.subrange(from as int, to as int)),
        count <= to - from,
{
    let mut j: usize = to;
    while j > from && is_whitespace(s[j - 1])
        invariant
            from <= j <= to,
            to <= s@.len(),
            trailing_whitespace(s@.subrange(from as int, to as int)) == (to - j)
                + trailing_whitespace(s@.subrange(from as int, j as int)),
        decreases j,
    {
        assert(s@.subrange(from as int, j as int).drop_last() =~= s@.subrange(
            from as int,
            j - 1,
        ));
        j = j - 1;
    }
    to - j
}

/// Finds the first `c` in `s[from..]`, as an offset from `from`.
fn find_char(s: &Vec<char>, from: usize, c: char) -> (found: Option<usize>)
    requires
        from <= s@.len(),
    ensures
        match found {
            Some(k) => first_index_of(s@.skip(from as int), c) == Some(k as nat),
            None => first_index_of(s@.skip(from as int), c) is None,
        },
{
    let mut i: usize = from;
    while i < s.len()
        invariant
            from <= i <= s@.len(),
            first_index_of(s@.skip(from as int), c) == (match first_index_of(s@.skip(i as int), c) {
                Some(k) => Some((k + (i - from)) as nat),
                None => None,
            }),
        decreases s@.len() - i,
    {
        if s[i] == c {
            return Some(i - from);
        }
        assert(s@.skip(i as int).drop_first() =~= s@.skip(i + 1));
        i = i + 1;
    }
    None
}

/// Copies `s[from..to]`.
fn copy_range(s: &Vec<char>, from: usize, to: usize) -> (out: Vec<char>)
    requires
        from <= to <= s@.len(),
    ensures
        out@ == s@.subrange(from as int, to as int),
{
    let mut out: Vec<char> = Vec::new();
    let mut i: usize = from;
    while i < to
        invariant
            from <= i <= to,
            to <= s@.len(),
            out@ == s@.subrange(from as int, i as int),
        decreases to - i,
    {
        out.push(s[i]);
        i = i + 1;
        assert(out@ =~= s@.subrange(from as int, i as int));
    }
    out
}

/// Reads the first executable path from a Run value, without any shell parsing.
pub fn parse_registered_command(command: &str) -> (path: Option<String>)
    ensures
        match spec_parse_registered_command(command@) {
            Some(p) => path matches Some(s) && s@ == p,
            None => path is None,
        },
{
    let chars = chars_of(command);
    let start = count_leading_whitespace(&chars, 0);
    assert(chars@.skip(0) =~= chars@);
    let ghost rest = chars@.skip(start as int);
    let trailing = count_trailing_whitespace(&chars, start, chars.len());
    assert(chars@.subrange(start as int, chars@.len() as int) =~= rest);
    let end = chars.len() - trailing;
    let ghost t = trimmed(command@);
    assert(t =~= chars@.subrange(start as int, end as int));
    if start == end {
        return None;
    }
    if chars[start] == '"' {
        assert(t.drop_first() =~= chars@.skip(start + 1).take(end - start - 1));
        let found = find_char(&chars, start + 1, '"');
        let quote = match found {
            Some(offset) => offset,
            None => {
                proof {
                    lemma_first_index_prefix(chars@.skip(start + 1), (end - start - 1) as nat, '"');
                }
                return None;
            },
        };
        proof {
            lemma_first_index_prefix(chars@.skip(start + 1), (end - start - 1) as nat, '"');
        }
        if quote >= end - start - 1 {
            return None;
        }
        assert(t[0] == '"');
        assert(first_index_of(t.drop_first(), '"') == Some(quote as nat));
        let path = copy_range(&chars, start + 1, start + 1 + quote);
        assert(path@ =~= t.drop_first().take(quote as int));
        return Some(string_from_chars(&path));
    }
    let token = count_leading_token(&chars, start);
    proof {
        lemma_trailing_stop(rest);
        assert(rest[rest.len() - trailing - 1] == chars@[end - 1]);
        lemma_token_prefix(chars@.skip(start as int), (end - start) as nat);
    }
    let word = if token < end - start {
        token
    } else {
        end - start
    };
    assert(t =~= chars@.skip(start as int).take(end - start));
    let path = copy_range(&chars, start, start + word);
    assert(path@ =~= t.take(leading_token(t) as int));
    Some(string_from_chars(&path))
}

/// Searching a prefix of `s` for `c` finds what searching `s` finds, when that lies
/// inside the prefix, and nothing otherwise.
proof fn lemma_first_index_prefix(s: Seq<char>, n: nat, c: char)
    requires
        n <= s.len(),
    ensures
        first_index_of(s.take(n as int), c) == (match first_index_of(s, c) {
            Some(i) => if i < n {
                Some(i)
            } else {
                None
            },
            None => None,
        }),
    decreases n,
{
    if n == 0 {
    } else {
        assert(s.take(n as int).drop_first() =~= s.drop_first().take(n - 1));
        if s[0] != c {
            lemma_first_index_prefix(s.drop_first(), (n - 1) as nat, c);
        }
    }
}

/// Trailing whitespace stops at a character that is not whitespace.
proof fn lemma_trailing_stop(s: Seq<char>)
    ensures
        trailing_whitespace(s) <= s.len(),
        trailing_whitespace(s) < s.len() ==> !char_is_whitespace(
            s[s.len() - 1 - trailing_whitespace(s)],
        ),
    decreases s.len(),
{
    if s.len() > 0 && char_is_whitespace(s.last()) {
        lemma_trailing_stop(s.drop_last());
    }
}

/// The leading word of a prefix of `s` is the leading word of `s`, cut to the prefix.
proof fn lemma_token_prefix(s: Seq<char>, n: nat)
    requires
        n <= s.len(),
        n > 0,
        !char_is_whitespace(s[n - 1]),
    ensures
        leading_token(s.take(n as int)) == (if leading_token(s) < n {
            leading_token(s)
        } else {
            n
        }),
    decreases n,
{
    let prefix = s.take(n as int);
    assert(prefix.drop_first() =~= s.drop_first().take(n - 1));
    assert(prefix[0] == s[0]);
    if !char_is_whitespace(s[0]) {
        assert(leading_token(prefix) == 1 + leading_token(prefix.drop_first()));
        assert(leading_token(s) == 1 + leading_token(s.drop_first()));
        if n > 1 {
            lemma_token_prefix(s.drop_first(), (n - 1) as nat);
        } else {
            assert(prefix.drop_first().len() == 0);
        }
    }
}

/// `c` with an ASCII capital turned into its small letter, as `to_ascii_lowercase` does.
pub open spec fn ascii_lower(c: char) -> char {
    if 'A' <= c && c <= 'Z' {
        ((c as u32) + 32) as char
    } else {
        c
    }
}

/// `c` with a forward slash turned into a backslash.
pub open spec fn backslashed(c: char) -> char {
    if c == '/' {
        '\\'
    } else {
        c
    }
}

/// The number of backslashes at the end of `s`.
pub open spec fn trailing_backslashes(s: Seq<char>) -> nat
    decreases s.len(),
{
    if s.len() > 0 && s.last() == '\\' {
        1 + trailing_backslashes(s.drop_last())
    } else {
        0
    }
}

/// A path in the form Windows compares: forward slashes as backslashes, no trailing
/// backslash, ASCII letters in lower case.
pub open spec fn windows_normalized(path: Seq<char>) -> Seq<char> {
    let slashed = path.map_values(|c: char| backslashed(c));
    let trimmed = slashed.take(slashed.len() - trailing_backslashes(slashed));
    trimmed.map_values(|c: char| ascii_lower(c))
}

/// Lower-cases one ASCII capital.
fn to_ascii_lower(c: char) -> (lower: char)
    ensures
        lower == ascii_lower(c),
{
    if 'A' <= c && c <= 'Z' {
        let code = c as u32;
        let lowered = (code + 32) as u8;
        assert(lowered == code + 32);
        lowered as char
    } else {
        c
    }
}

/// The Windows comparison form of a path.
fn normalize_windows_path(path: &str) -> (normalized: Vec<char>)
    ensures
        normalized@ == windows_normalized(path@),
{
    let chars = chars_of(path);
    let mut slashed: Vec<char> = Vec::new();
    let mut i: usize = 0;
    while i < chars.len()
        invariant
            chars@ == path@,
            i <= chars@.len(),
            slashed@ == chars@.subrange(0, i as int).map_values(|c: char| backslashed(c)),
        decreases chars@.len() - i,
    {
        let c = chars[i];
        slashed.push(if c == '/' {
            '\\'
        } else {
            c
        });
        i = i + 1;
        assert(slashed@ =~= chars@.subrange(0, i as int).map_values(|c: char| backslashed(c)));
    }
    assert(chars@.subrange(0, i as int) =~= chars@);
    let mut end: usize = slashed.len();
    assert(slashed@.subrange(0, end as int) =~= slashed@);
    while end > 0 && slashed[end - 1] == '\\'
        invariant
            end <= slashed@.len(),
            trailing_backslashes(slashed@) == (slashed@.len() - end) + trailing_backslashes(
                slashed@.subrange(0, end as int),
            ),
        decreases end,
    {
        assert(slashed@.subrange(0, end as int).drop_last() =~= slashed@.subrange(0, end - 1));
        end = end - 1;
    }
    let mut normalized: Vec<char> = Vec::new();
    let mut k: usize = 0;
    while k < end
        invariant
            end <= slashed@.len(),
            k <= end,
            normalized@ == slashed@.subrange(0, k as int).map_values(|c: char| ascii_lower(c)),
        decreases end - k,
    {
        let lower = to_ascii_lower(slashed[k]);
        normalized.push(lower);
        k = k + 1;
        assert(normalized@ =~= slashed@.subrange(0, k as int).map_values(|c: char| ascii_lower(c)));
    }
    assert(slashed@.take(end as int) =~= slashed@.subrange(0, end as int));
    normalized
}

/// Compares two paths by the Windows rules: ASCII case, slash direction and trailing
/// backslashes do not matter.
pub fn paths_equal_for_windows(left: &str, right: &str) -> (equal: bool)
    ensures
        equal == (windows_normalized(left@) == windows_normalized(right@)),
{
    let a = normalize_windows_path(left);
    let b = normalize_windows_path(right);
    if a.len() != b.len() {
        return false;
    }
    let mut i: usize = 0;
    while i < a.len()
        invariant
            a@ == windows_normalized(left@),
            b@ == windows_normalized(right@),
            a@.len() == b@.len(),
            i <= a@.len(),
            forall|k: int| 0 <= k < i ==> a@[k] == b@[k],
        decreases a@.len() - i,
    {
        if a[i] != b[i] {
            assert(a@[i as int] != b@[i as int]);
            return false;
        }
        i = i + 1;
    }
    assert(a@ =~= b@);
    true
}

/// The state of the Run value `command` for the executable at `expected_path`.
pub open spec fn spec_classify_state(command: Option<Seq<char>>, expected_path: Seq<char>) -> MachineAutostartState {
    match command {
        None => MachineAutostartState::Disabled,
        Some(command) => match spec_parse_registered_command(command) {
            None => MachineAutostartState::EnabledPathMismatch,
            Some(registered) => if windows_normalized(registered) == windows_normalized(
                expected_path,
            ) {
                MachineAutostartState::Enabled
            } else {
                MachineAutostartState::EnabledPathMismatch
            },
        },
    }
}

/// Classifies the Run value against the current executable's path.
pub fn classify_state(command: Option<&str>, expected_path: &str) -> (state: MachineAutostartState)
    ensures
        state == spec_classify_state(
            match command {
                Some(c) => Some(c@),
                None => None,
            },
            expected_path@,
        ),
{
    let command = match command {
        None => return MachineAutostartState::Disabled,
        Some(command) => command,
    };
    let registered = match parse_registered_command(command) {
        None => return MachineAutostartState::EnabledPathMismatch,
        Some(registered) => registered,
    };
    if paths_equal_for_windows(registered.as_str(), expected_path) {
        MachineAutostartState::Enabled
    } else {
        MachineAutostartState::EnabledPathMismatch
    }
}

/// Reads the autostart state from what the registry read returned: a read failure
/// is a registry error, else the value is classified.
pub fn query_with_backend(read: Result<Option<String>, String>, expected_path: &str) -> (res: Result<
    MachineAutostartState,
    AutostartError,
>)
    ensures
        match read {
            Err(message) => res == Err::<MachineAutostartState, AutostartError>(
                AutostartError::Registry(message),
            ),
            Ok(value) => res == Ok::<MachineAutostartState, AutostartError>(
                spec_classify_state(
                    match value {
                        Some(v) => Some(v@),
                        None => None,
                    },
                    expected_path@,
                ),
            ),
        },
{
    match read {
        Err(message) => Err(AutostartError::Registry(message)),
        Ok(value) => match value {
            Some(command) => Ok(classify_state(Some(command.as_str()), expected_path)),
            None => Ok(classify_state(None, expected_path)),
        },
    }
}

/// The registry change that sets the autostart entry.
#[derive(Debug, Clone, PartialEq, Eq)]
pub enum RegistryChange {
    /// Write this command as the Run value.
    Write(String),
    /// Delete the Run value.
    Delete,
}

/// The change that enables or disables autostart for the executable at
/// `executable_path`; enabling formats the quoted command first.
pub fn change_with_backend(enabled: bool, executable_path: &str) -> (res: Result<
    RegistryChange,
    AutostartError,
>)
    ensures
        !enabled ==> res == Ok::<RegistryChange, AutostartError>(RegistryChange::Delete),
        enabled ==> match spec_format_run_command(executable_path@) {
            Ok(command) => res matches Ok(RegistryChange::Write(c)) && c@ == command,
            Err(()) => res matches Err(AutostartError::InvalidExecutablePath(p)) && p@
                == executable_path@,
        },
{
    if enabled {
        match format_run_command(executable_path) {
            Ok(command) => Ok(RegistryChange::Write(command)),
            Err(error) => Err(error),
        }
    } else {
        Ok(RegistryChange::Delete)
    }
}

/// The first `c` in `s` followed by `c` is that last one when `s` holds none.
proof fn lemma_first_index_after(s: Seq<char>, c: char)
    requires
        !s.contains(c),
    ensures
        first_index_of(s + seq![c], c) == Some(s.len()),
    decreases s.len(),
{
    let t = s + seq![c];
    if s.len() > 0 {
        assert(t[0] == s[0]);
        assert(t.drop_first() =~= s.drop_first() + seq![c]);
        assert(!s.drop_first().contains(c)) by {
            if s.drop_first().contains(c) {
                let k = choose|k: int| 0 <= k < s.drop_first().len() && s.drop_first()[k] == c;
                assert(s[k + 1] == c);
            }
        }
        lemma_first_index_after(s.drop_first(), c);
    }
}

/// Enabling autostart and then querying it, for the same executable, reads it as
/// enabled: the command that enabling writes parses back to the executable's own
/// path. With the value deleted, the query reads it as disabled.
pub proof fn lemma_enabled_command_reads_back(path: Seq<char>)
    requires
        spec_format_run_command(path) is Ok,
    ensures
        spec_parse_registered_command(spec_format_run_command(path)->Ok_0) == Some(path),
        spec_classify_state(Some(spec_format_run_command(path)->Ok_0), path) is Enabled,
        spec_classify_state(None, path) is Disabled,
{
    let command = spec_format_run_command(path)->Ok_0;
    assert(command == seq!['"'] + path + seq!['"']);
    assert(!char_is_whitespace('"'));
    assert(leading_whitespace(command) == 0);
    assert(command.skip(0) =~= command);
    assert(command.last() == '"');
    assert(trailing_whitespace(command) == 0);
    let t = trimmed(command);
    assert(t =~= command);
    assert(t.drop_first() =~= path + seq!['"']);
    lemma_first_index_after(path, '"');
    assert(t.drop_first().take(path.len() as int) =~= path);
}

/// The fixed, injection-free argument that tells the elevated helper what to do.
pub fn helper_mode_argument(enabled: bool) -> (argument: &'static str)
    ensures
        enabled ==> argument@ == "enable"@,
        !enabled ==> argument@ == "disable"@,
{
    if enabled {
        "enable"
    } else {
        "disable"
    }
}

/// What the process arguments ask for: `None` for an ordinary start, else whether the
/// helper is to enable autostart. An argument that is not valid Unicode is `None`.
pub open spec fn spec_parse_helper_mode(arguments: Seq<Option<Seq<char>>>) -> Result<
    Option<bool>,
    AutostartError,
> {
    if arguments.len() < 2 || arguments[1] != Some("--machine-autostart"@) {
        Ok(None)
    } else if arguments.len() != 3 {
        Err(AutostartError::InvalidHelperArguments)
    } else if arguments[2] == Some("enable"@) {
        Ok(Some(true))
    } else if arguments[2] == Some("disable"@) {
        Ok(Some(false))
    } else {
        Err(AutostartError::InvalidHelperArguments)
    }
}

/// The view of the process arguments: each one's characters, if it is valid Unicode.
pub open spec fn arguments_view(arguments: Seq<Option<String>>) -> Seq<Option<Seq<char>>> {
    arguments.map_values(
        |a: Option<String>|
            match a {
                Some(s) => Some(s@),
                None => None,
            },
    )
}

/// Parses the process arguments; only the exact helper switch followed by exactly
/// `enable` or `disable` starts helper mode.
pub fn parse_helper_mode(arguments: &Vec<Option<String>>) -> (res: Result<Option<bool>, AutostartError>)
    ensures
        res == spec_parse_helper_mode(arguments_view(arguments@)),
{
    proof {
        reveal_strlit("--machine-autostart");
        reveal_strlit("enable");
        reveal_strlit("disable");
    }
    let ghost view = arguments_view(arguments@);
    if arguments.len() < 2 {
        return Ok(None);
    }
    let is_switch = match &arguments[1] {
        Some(switch) => str_equals(switch.as_str(), HELPER_SWITCH),
        None => false,
    };
    assert(is_switch == (view[1] == Some("--machine-autostart"@)));
    if !is_switch {
        return Ok(None);
    }
    if arguments.len() != 3 {
        return Err(AutostartError::InvalidHelperArguments);
    }
    match &arguments[2] {
        Some(mode) => {
            if str_equals(mode.as_str(), "enable") {
                Ok(Some(true))
            } else if str_equals(mode.as_str(), "disable") {
                Ok(Some(false))
            } else {
                Err(AutostartError::InvalidHelperArguments)
            }
        },
        None => Err(AutostartError::InvalidHelperArguments),
    }
}

/// The diagnostic for a failed registry call: the operation, then the Win32 error code.
pub open spec fn registry_error_text(operation: Seq<char>, code: u32) -> Seq<char> {
    operation + "失败 (Win32 错误码 "@ + decimal(code as nat) + ")"@
}

/// Formats a failed registry call for the settings page's diagnostics.
pub fn registry_error(operation: &str, code: u32) -> (message: String)
    ensures
        message@ == registry_error_text(operation@, code),
{
    let mut chars: Vec<char> = Vec::new();
    push_str(&mut chars, operation);
    push_str(&mut chars, "失败 (Win32 错误码 ");
    push_decimal(&mut chars, code as u128);
    push_str(&mut chars, ")");
    string_from_chars(&chars)
}

/// Reads the autostart state for the executable at the given path, from what the
/// registry read returned.
pub fn query(executable: Result<String, String>, read: Result<Option<String>, String>) -> (res:
    Result<MachineAutostartState, AutostartError>)
    ensures
        match executable {
            Err(detail) => res == Err::<MachineAutostartState, AutostartError>(
                AutostartError::CurrentExecutable(detail),
            ),
            Ok(path) => res == query_outcome(read, path@),
        },
{
    match executable {
        Err(detail) => Err(AutostartError::CurrentExecutable(detail)),
        Ok(path) => query_with_backend(read, path.as_str()),
    }
}

/// What a registry read gives for an executable path.
pub open spec fn query_outcome(read: Result<Option<String>, String>, path: Seq<char>) -> Result<
    MachineAutostartState,
    AutostartError,
> {
    match read {
        Err(message) => Err(AutostartError::Registry(message)),
        Ok(value) => Ok(
            spec_classify_state(
                match value {
                    Some(v) => Some(v@),
                    None => None,
                },
                path,
            ),
        ),
    }
}

/// The machine-wide autostart state; without a machine-wide registry the platform
/// is unsupported.
pub fn query_machine_autostart(
    registry_available: bool,
    executable: Result<String, String>,
    read: Result<Option<String>, String>,
) -> (res: Result<MachineAutostartState, AutostartError>)
    ensures
        !registry_available ==> res == Err::<MachineAutostartState, AutostartError>(
            AutostartError::UnsupportedPlatform,
        ),
        registry_available ==> match executable {
            Err(detail) => res == Err::<MachineAutostartState, AutostartError>(
                AutostartError::CurrentExecutable(detail),
            ),
            Ok(path) => res == query_outcome(read, path@),
        },
{
    if !registry_available {
        return Err(AutostartError::UnsupportedPlatform);
    }
    query(executable, read)
}

/// The parameters handed to the elevated helper: the switch, a space, and the mode.
pub open spec fn helper_parameters_of(enabled: bool) -> Seq<char> {
    HELPER_SWITCH@ + " "@ + (if enabled {
        "enable"@
    } else {
        "disable"@
    })
}

/// How the elevated helper is started: this executable, with fixed parameters,
/// through the `runas` verb.
#[derive(Debug, Clone, PartialEq, Eq)]
pub struct HelperLaunch {
    pub executable: String,
    pub parameters: String,
}

/// Prepares the elevation request that changes the machine-wide autostart state.
pub fn request_machine_autostart_change(
    enabled: bool,
    registry_available: bool,
    executable: Result<String, String>,
) -> (res: Result<HelperLaunch, AutostartError>)
    ensures
        !registry_available ==> res == Err::<HelperLaunch, AutostartError>(
            AutostartError::UnsupportedPlatform,
        ),
        registry_available ==> match executable {
            Err(detail) => res == Err::<HelperLaunch, AutostartError>(
                AutostartError::CurrentExecutable(detail),
            ),
            Ok(path) => res matches Ok(launch) && launch.executable@ == path@
                && launch.parameters@ == helper_parameters_of(enabled),
        },
{
    if !registry_available {
        return Err(AutostartError::UnsupportedPlatform);
    }
    match executable {
        Err(detail) => Err(AutostartError::CurrentExecutable(detail)),
        Ok(path) => {
            let mut parameters: Vec<char> = Vec::new();
            push_str(&mut parameters, HELPER_SWITCH);
            push_str(&mut parameters, " ");
            push_str(&mut parameters, helper_mode_argument(enabled));
            Ok(HelperLaunch { executable: path, parameters: string_from_chars(&parameters) })
        },
    }
}

/// What became of the elevated helper process.
#[derive(Debug, Clone, PartialEq, Eq)]
pub enum HelperRun {
    /// The elevation request failed or was cancelled.
    LaunchFailed(String),
    /// The shell returned no process handle.
    NoProcessHandle,
    /// Waiting for the helper failed.
    WaitFailed(String),
    /// The helper's exit code could not be read.
    ExitCodeUnavailable(String),
    /// The helper exited with this code.
    Exited(u32),
}

/// The outcome of a change request from what became of the helper: success
/// only when it exited with code zero.
pub fn helper_run_result(run: HelperRun) -> (res: Result<(), AutostartError>)
    ensures
        match run {
            HelperRun::LaunchFailed(detail) => res == Err::<(), AutostartError>(
                AutostartError::Elevation(detail),
            ),
            HelperRun::NoProcessHandle => res matches Err(AutostartError::Elevation(detail))
                && detail@ == "提权辅助进程没有返回有效句柄"@,
            HelperRun::WaitFailed(detail) => res matches Err(AutostartError::Elevation(message))
                && message@ == "等待辅助进程失败: "@ + detail@,
            HelperRun::ExitCodeUnavailable(detail) => res == Err::<(), AutostartError>(
                AutostartError::Elevation(detail),
            ),
            HelperRun::Exited(code) => if code == 0 {
                res == Ok::<(), AutostartError>(())
            } else {
                res == Err::<(), AutostartError>(AutostartError::HelperExitCode(code))
            },
        },
{
    match run {
        HelperRun::LaunchFailed(detail) => Err(AutostartError::Elevation(detail)),
        HelperRun::NoProcessHandle => {
            let mut message: Vec<char> = Vec::new();
            push_str(&mut message, "提权辅助进程没有返回有效句柄");
            assert(message@ =~= "提权辅助进程没有返回有效句柄"@);
            Err(AutostartError::Elevation(string_from_chars(&message)))
        },
        HelperRun::WaitFailed(detail) => {
            let mut message: Vec<char> = Vec::new();
            push_str(&mut message, "等待辅助进程失败: ");
            push_str(&mut message, detail.as_str());
            Err(AutostartError::Elevation(string_from_chars(&message)))
        },
        HelperRun::ExitCodeUnavailable(detail) => Err(AutostartError::Elevation(detail)),
        HelperRun::Exited(code) => if code == 0 {
            Ok(())
        } else {
            Err(AutostartError::HelperExitCode(code))
        },
    }
}

/// The registry change that the elevated helper makes for the executable.
pub fn run_helper(enabled: bool, executable: Result<String, String>) -> (res: Result<
    RegistryChange,
    AutostartError,
>)
    ensures
        match executable {
            Err(detail) => res == Err::<RegistryChange, AutostartError>(
                AutostartError::CurrentExecutable(detail),
            ),
            Ok(path) => {
                &&& !enabled ==> res == Ok::<RegistryChange, AutostartError>(RegistryChange::Delete)
                &&& enabled ==> match spec_format_run_command(path@) {
                    Ok(command) => res matches Ok(RegistryChange::Write(c)) && c@ == command,
                    Err(()) => res matches Err(AutostartError::InvalidExecutablePath(p)) && p@
                        == path@,
                }
            },
        },
{
    match executable {
        Err(detail) => Err(AutostartError::CurrentExecutable(detail)),
        Ok(path) => change_with_backend(enabled, path.as_str()),
    }
}

/// Helper mode, decided before any window or log exists: `None` for an ordinary
/// start, else the helper's intent, or why it cannot run.
pub fn run_helper_if_requested(arguments: &Vec<Option<String>>, registry_available: bool) -> (res:
    Option<Result<bool, AutostartError>>)
    ensures
        match spec_parse_helper_mode(arguments_view(arguments@)) {
            Ok(None) => res is None,
            Err(error) => res == Some(Err::<bool, AutostartError>(error)),
            Ok(Some(enabled)) => if registry_available {
                res == Some(Ok::<bool, AutostartError>(enabled))
            } else {
                res == Some(Err::<bool, AutostartError>(AutostartError::UnsupportedPlatform))
            },
        },
{
    match parse_helper_mode(arguments) {
        Ok(None) => None,
        Err(error) => Some(Err(error)),
        Ok(Some(enabled)) => if registry_available {
            Some(Ok(enabled))
        } else {
            Some(Err(AutostartError::UnsupportedPlatform))
        },
    }
}

/// The UTF-16 code units of one character: itself below U+10000, else a high
/// and a low surrogate.
pub open spec fn utf16_of_char(c: char) -> Seq<u16> {
    let u = c as u32;
    if u < 0x10000 {
        seq![u as u16]
    } else {
        let v = (u - 0x10000) as u32;
        seq![(0xD800 + v / 0x400) as u16, (0xDC00 + v % 0x400) as u16]
    }
}

/// The UTF-16 code units of `chars`, which `str::encode_utf16` yields.
pub open spec fn utf16_encoding(chars: Seq<char>) -> Seq<u16>
    decreases chars.len(),
{
    if chars.len() == 0 {
        Seq::empty()
    } else {
        utf16_of_char(chars[0]) + utf16_encoding(chars.drop_first())
    }
}

/// `u` is a surrogate code unit.
pub open spec fn is_surrogate(u: u16) -> bool {
    0xD800 <= u <= 0xDFFF
}

/// What `String::from_utf16` makes of `units`: the characters, or `None` when a
/// surrogate is not a high one followed by a low one.
pub open spec fn utf16_decoding(units: Seq<u16>) -> Option<Seq<char>>
    decreases units.len(),
{
    if units.len() == 0 {
        Some(Seq::empty())
    } else if !is_surrogate(units[0]) {
        match utf16_decoding(units.drop_first()) {
            Some(rest) => Some(seq![(units[0] as u32) as char] + rest),
            None => None,
        }
    } else if units[0] <= 0xDBFF && units.len() >= 2 && 0xDC00 <= units[1] <= 0xDFFF {
        let code = (0x10000 + (units[0] - 0xD800) * 0x400 + (units[1] - 0xDC00)) as u32;
        match utf16_decoding(units.skip(2)) {
            Some(rest) => Some(seq![code as char] + rest),
            None => None,
        }
    } else {
        None
    }
}

/// Decoding the UTF-16 encoding of characters gives them back, and the encoding
/// holds a zero unit only where the characters hold NUL.
proof fn lemma_utf16_round_trip(chars: Seq<char>)
    ensures
        utf16_decoding(utf16_encoding(chars)) == Some(chars),
        !chars.contains('\0') ==> !utf16_encoding(chars).contains(0u16),
    decreases chars.len(),
{
    if chars.len() > 0 {
        let c = chars[0];
        let rest = chars.drop_first();
        lemma_utf16_round_trip(rest);
        let units = utf16_encoding(chars);
        let head = utf16_of_char(c);
        assert(units == head + utf16_encoding(rest));
        let u = c as u32;
        char_is_scalar(c);
        char_u32_cast(c, u);
        if u < 0x10000 {
            assert(units.drop_first() =~= utf16_encoding(rest));
            assert(((u as u16) as u32) == u);
        } else {
            let v = (u - 0x10000) as u32;
            assert(units.skip(2) =~= utf16_encoding(rest));
            assert(v < 0x100000);
            assert(v / 0x400 < 0x400);
            assert((v / 0x400) * 0x400 + v % 0x400 == v);
            let high = (0xD800 + v / 0x400) as u16;
            let low = (0xDC00 + v % 0x400) as u16;
            assert((0x10000 + (high - 0xD800) * 0x400 + (low - 0xDC00)) as u32 == u);
        }
        assert(seq![c] + rest =~= chars);
        if !chars.contains('\0') {
            assert(!rest.contains('\0')) by {
                if rest.contains('\0') {
                    let k = choose|k: int| 0 <= k < rest.len() && rest[k] == '\0';
                    assert(chars[k + 1] == '\0');
                }
            }
            assert(c != '\0');
            assert(!units.contains(0u16)) by {
                if units.contains(0u16) {
                    let k = choose|k: int| 0 <= k < units.len() && units[k] == 0u16;
                    if k >= head.len() {
                        assert(utf16_encoding(rest)[k - head.len()] == 0u16);
                    }
                }
            }
        }
    }
}

/// Calls `String::from_utf16`; an error becomes its `Display` text.
#[verifier::external_body]
fn string_from_utf16(units: &[u16]) -> (res: Result<String, String>)
    ensures
        match utf16_decoding(units@) {
            Some(chars) => res matches Ok(s) && s@ == chars,
            None => res is Err,
        },
{
    String::from_utf16(units).map_err(|error| error.to_string())
}

/// Calls `str::encode_utf16` and collects the code units.
#[verifier::external_body]
fn encode_utf16(value: &str) -> (units: Vec<u16>)
    ensures
        units@ == utf16_encoding(value@),
{
    value.encode_utf16().collect()
}

/// The little-endian UTF-16 code units of a registry string's bytes.
pub open spec fn registry_units(bytes: Seq<u8>) -> Seq<u16> {
    Seq::new(
        bytes.len() / 2,
        |i: int| spec_u16_from_le_bytes(bytes.subrange(2 * i, 2 * i + 2)),
    )
}

/// The number of code units before the first NUL.
pub open spec fn units_before_nul(units: Seq<u16>) -> nat
    decreases units.len(),
{
    if units.len() == 0 || units[0] == 0 {
        0
    } else {
        1 + units_before_nul(units.drop_first())
    }
}

/// Decodes the bytes of a REG_SZ value: little-endian UTF-16, up to the first NUL.
pub fn decode_registry_string(bytes: &[u8]) -> (res: Result<String, String>)
    ensures
        bytes@.len() % 2 == 1 ==> (res matches Err(message) && message@
            == "注册表字符串字节数不是偶数"@),
        bytes@.len() % 2 == 0 ==> {
            let units = registry_units(bytes@);
            match utf16_decoding(units.take(units_before_nul(units) as int)) {
                Some(chars) => res matches Ok(s) && s@ == chars,
                None => res matches Err(message) && has_prefix(
                    message@,
                    "注册表字符串不是有效 UTF-16: "@,
                ),
            }
        },
{
    if bytes.len() % 2 != 0 {
        proof {
            reveal_strlit("注册表字符串字节数不是偶数");
        }
        return Err(String::from_str("注册表字符串字节数不是偶数"));
    }
    let ghost all = registry_units(bytes@);
    let mut units: Vec<u16> = Vec::new();
    let mut i: usize = 0;
    let mut ended = false;
    assert(all.skip(0) =~= all);
    assert(units@ =~= all.take(0));
    while i < bytes.len() / 2 && !ended
        invariant
            bytes@.len() % 2 == 0,
            all == registry_units(bytes@),
            i <= bytes@.len() / 2,
            ended ==> units@ == all.take(units_before_nul(all) as int),
            !ended ==> units@ == all.take(i as int) && units_before_nul(all) == i
                + units_before_nul(all.skip(i as int)),
        decreases bytes@.len() / 2 - i + (if ended { 0int } else { 1int }),
    {
        let unit = u16_from_le_bytes(slice_subrange(bytes, 2 * i, 2 * i + 2));
        assert(unit == all[i as int]);
        assert(all.skip(i as int)[0] == unit);
        if unit == 0 {
            ended = true;
        } else {
            assert(all.skip(i as int).drop_first() =~= all.skip(i + 1));
            units.push(unit);
            i = i + 1;
            assert(units@ =~= all.take(i as int));
        }
    }
    if !ended {
        assert(all.skip(i as int).len() == 0);
        assert(units@ =~= all.take(units_before_nul(all) as int));
    }
    match string_from_utf16(units.as_slice()) {
        Ok(decoded) => Ok(decoded),
        Err(detail) => {
            let mut message: Vec<char> = Vec::new();
            push_str(&mut message, "注册表字符串不是有效 UTF-16: ");
            push_str(&mut message, detail.as_str());
            assert(message@.subrange(0, "注册表字符串不是有效 UTF-16: "@.len() as int)
                =~= "注册表字符串不是有效 UTF-16: "@);
            Err(string_from_chars(&message))
        },
    }
}

/// The NUL-terminated UTF-16 buffer that Windows APIs take for `value`.
pub fn to_wide_string(value: &str) -> (wide: Vec<u16>)
    ensures
        wide@ == utf16_encoding(value@).push(0),
        utf16_decoding(wide@.drop_last()) == Some(value@),
        !value@.contains('\0') ==> !wide@.drop_last().contains(0u16),
{
    let mut wide = encode_utf16(value);
    proof {
        lemma_utf16_round_trip(value@);
    }
    wide.push(0);
    assert(wide@.drop_last() =~= utf16_encoding(value@));
    wide
}

/// The little-endian bytes of UTF-16 code units, two per unit.
pub open spec fn units_le_bytes(units: Seq<u16>) -> Seq<u8> {
    Seq::new(2 * units.len(), |j: int| spec_u16_to_le_bytes(units[j / 2])[j % 2])
}

/// The units of `units_le_bytes(units)`, read back two bytes at a time, are `units`.
proof fn lemma_units_le_bytes_read_back(units: Seq<u16>)
    ensures
        units_le_bytes(units).len() % 2 == 0,
        registry_units(units_le_bytes(units)) == units,
{
    lemma_auto_spec_u16_to_from_le_bytes();
    let bytes = units_le_bytes(units);
    assert forall|i: int| 0 <= i < units.len() implies #[trigger] registry_units(bytes)[i]
        == units[i] by {
        assert(bytes.subrange(2 * i, 2 * i + 2) =~= spec_u16_to_le_bytes(units[i]));
    }
    assert(registry_units(bytes) =~= units);
}

/// The units before the first NUL of `units` followed by a NUL are all of `units`
/// when they hold none.
proof fn lemma_nul_terminated(units: Seq<u16>)
    requires
        !units.contains(0u16),
    ensures
        units_before_nul(units.push(0)) == units.len(),
    decreases units.len(),
{
    if units.len() > 0 {
        assert(units.push(0)[0] == units[0]);
        assert(units.push(0).drop_first() =~= units.drop_first().push(0));
        assert(!units.drop_first().contains(0u16)) by {
            if units.drop_first().contains(0u16) {
                let k = choose|k: int| 0 <= k < units.drop_first().len() && units.drop_first()[k]
                    == 0u16;
                assert(units[k + 1] == 0u16);
            }
        }
        lemma_nul_terminated(units.drop_first());
    }
}

/// The bytes of the REG_SZ value that holds `value`: its UTF-16 code units and a
/// terminating NUL, little-endian. Reading them back with `decode_registry_string`
/// gives `value` again when it holds no NUL character.
pub fn registry_string_bytes(value: &str) -> (bytes: Vec<u8>)
    ensures
        bytes@ == units_le_bytes(utf16_encoding(value@).push(0)),
        !value@.contains('\0') ==> {
            let units = registry_units(bytes@);
            &&& bytes@.len() % 2 == 0
            &&& utf16_decoding(units.take(units_before_nul(units) as int)) == Some(value@)
        },
{
    let wide = to_wide_string(value);
    let mut bytes: Vec<u8> = Vec::new();
    let mut i: usize = 0;
    while i < wide.len()
        invariant
            i <= wide@.len(),
            bytes@ == units_le_bytes(wide@.take(i as int)),
        decreases wide@.len() - i,
    {
        let pair = u16_to_le_bytes(wide[i]);
        bytes.push(pair[0]);
        bytes.push(pair[1]);
        i = i + 1;
        assert(bytes@ =~= units_le_bytes(wide@.take(i as int)));
    }
    assert(wide@.take(i as int) =~= wide@);
    proof {
        lemma_units_le_bytes_read_back(wide@);
        if !value@.contains('\0') {
            let encoded = wide@.drop_last();
            assert(wide@ =~= encoded.push(0));
            lemma_nul_terminated(encoded);
            assert(wide@.take(encoded.len() as int) =~= encoded);
        }
    }
    bytes
}

} // verus!
