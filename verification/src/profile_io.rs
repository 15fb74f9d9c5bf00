//! Exporting and importing controller profiles: the suggested file name,
//! the text of the Windows file dialog script, and how an imported profile
//! is adopted for the selected controller.
use vstd::prelude::*;

use crate::model::ControllerProfile;
use crate::text::push_char;

verus! {

/// The file-type filter offered by the mapping file dialogs.
pub const FILTER: &'static str =
    "x360ce mapping (*.json)|*.json|JSON files (*.json)|*.json|All files (*.*)|*.*";

/// Characters kept in file names: ASCII letters and digits, `-` and `_`.
pub open spec fn file_name_char(c: char) -> bool {
    ('a' <= c && c <= 'z') || ('A' <= c && c <= 'Z') || ('0' <= c && c <= '9') || c == '-' || c
        == '_'
}

pub open spec fn file_char(c: char) -> char {
    if file_name_char(c) {
        c
    } else {
        '-'
    }
}

/// A text without its leading `-` characters.
pub open spec fn drop_leading_dashes(s: Seq<char>) -> Seq<char>
    decreases s.len(),
{
    if s.len() > 0 && s[0] == '-' {
        drop_leading_dashes(s.drop_first())
    } else {
        s
    }
}

/// A text without its trailing `-` characters.
pub open spec fn drop_trailing_dashes(s: Seq<char>) -> Seq<char>
    decreases s.len(),
{
    if s.len() > 0 && s.last() == '-' {
        drop_trailing_dashes(s.drop_last())
    } else {
        s
    }
}

/// A profile name made safe as a file name: other characters become `-`,
/// dashes at either end are dropped, and an empty result becomes
/// `mapping`.
pub open spec fn sanitized(name: Seq<char>) -> Seq<char> {
    let t = drop_trailing_dashes(drop_leading_dashes(name.map_values(|c: char| file_char(c))));
    if t.len() == 0 {
        "mapping"@
    } else {
        t
    }
}

proof fn lemma_drop_leading(s: Seq<char>, k: int)
    requires
        0 <= k <= s.len(),
        forall|j: int| 0 <= j < k ==> s[j] == '-',
        k == s.len() || s[k] != '-',
    ensures
        drop_leading_dashes(s) == s.subrange(k, s.len() as int),
    decreases k,
{
    if k > 0 {
        let t = s.drop_first();
        assert forall|j: int| 0 <= j < k - 1 implies t[j] == '-' by {
            assert(t[j] == s[j + 1]);
        }
        if k - 1 < t.len() {
            assert(t[k - 1] == s[k]);
        }
        lemma_drop_leading(t, k - 1);
        assert(t.subrange(k - 1, t.len() as int) =~= s.subrange(k, s.len() as int));
    } else {
        assert(s.subrange(0, s.len() as int) =~= s);
    }
}

proof fn lemma_drop_trailing(s: Seq<char>, e: int)
    requires
        0 <= e <= s.len(),
        forall|j: int| e <= j < s.len() ==> s[j] == '-',
        e == 0 || s[e - 1] != '-',
    ensures
        drop_trailing_dashes(s) == s.subrange(0, e),
    decreases s.len() - e,
{
    if e < s.len() {
        let t = s.drop_last();
        assert forall|j: int| e <= j < t.len() implies t[j] == '-' by {
            assert(t[j] == s[j]);
        }
        if e > 0 {
            assert(t[e - 1] == s[e - 1]);
        }
        lemma_drop_trailing(t, e);
        assert(t.subrange(0, e) =~= s.subrange(0, e));
    } else {
        assert(s.subrange(0, e) =~= s);
    }
}

pub fn sanitize_filename(value: &str) -> (r: String)
    ensures
        r@ == sanitized(value@),
{
    let n = value.unicode_len();
    let mut mapped: Vec<char> = Vec::new();
    let mut i: usize = 0;
    while i < n
        invariant
            n == value@.len(),
            i <= n,
            mapped@ == value@.subrange(0, i as int).map_values(|c: char| file_char(c)),
        decreases n - i,
    {
        let c = value.get_char(i);
        let keep = ('a' <= c && c <= 'z') || ('A' <= c && c <= 'Z') || ('0' <= c && c <= '9')
            || c == '-' || c == '_';
        mapped.push(
            if keep {
                c
            } else {
                '-'
            },
        );
        proof {
            assert(mapped@ =~= value@.subrange(0, (i + 1) as int).map_values(
                |c: char| file_char(c),
            ));
        }
        i = i + 1;
    }
    proof {
        assert(value@.subrange(0, n as int) =~= value@);
    }
    let ghost m = mapped@;
    let mut start: usize = 0;
    while start < mapped.len() && mapped[start] == '-'
        invariant
            start <= mapped@.len(),
            forall|j: int| 0 <= j < start ==> mapped@[j] == '-',
        decreases mapped.len() - start,
    {
        start = start + 1;
    }
    proof {
        lemma_drop_leading(m, start as int);
    }
    let ghost lead = m.subrange(start as int, m.len() as int);
    let mut end: usize = mapped.len();
    while end > start && mapped[end - 1] == '-'
        invariant
            start <= end <= mapped@.len(),
            forall|j: int| end <= j < mapped@.len() ==> mapped@[j] == '-',
        decreases end,
    {
        end = end - 1;
    }
    proof {
        let e = end - start;
        assert forall|j: int| e <= j < lead.len() implies lead[j] == '-' by {
            assert(lead[j] == m[start + j]);
        }
        if e > 0 {
            assert(lead[e - 1] == m[end - 1]);
        }
        lemma_drop_trailing(lead, e);
        assert(lead.subrange(0, e) =~= m.subrange(start as int, end as int));
    }
    if start == end {
        return String::from_str("mapping");
    }
    let mut out = String::new();
    let mut k: usize = start;
    while k < end
        invariant
            start <= k <= end <= mapped@.len(),
            out@ == mapped@.subrange(start as int, k as int),
        decreases end - k,
    {
        push_char(&mut out, mapped[k]);
        proof {
            assert(out@ =~= mapped@.subrange(start as int, (k + 1) as int));
        }
        k = k + 1;
    }
    out
}

/// The file name offered when a profile is exported.
pub fn export_file_name(profile_name: &str) -> (r: String)
    ensures
        r@ == sanitized(profile_name@) + ".x360ce.json"@,
{
    let mut s = sanitize_filename(profile_name);
    s.append(".x360ce.json");
    s
}

/// One character inside a single-quoted PowerShell string: quotes are
/// doubled; with `backticks`, backticks are doubled too.
pub open spec fn quoted_char(c: char, backticks: bool) -> Seq<char> {
    if c == '\'' {
        seq!['\'', '\'']
    } else if backticks && c == '`' {
        seq!['`', '`']
    } else {
        seq![c]
    }
}

/// A text escaped for a single-quoted PowerShell string.
pub open spec fn quoted_text(s: Seq<char>, backticks: bool) -> Seq<char>
    decreases s.len(),
{
    if s.len() == 0 {
        Seq::empty()
    } else {
        quoted_text(s.drop_last(), backticks) + quoted_char(s.last(), backticks)
    }
}

fn quote_for_powershell(value: &str, backticks: bool) -> (r: String)
    ensures
        r@ == quoted_text(value@, backticks),
{
    let n = value.unicode_len();
    let mut out = String::new();
    let mut i: usize = 0;
    while i < n
        invariant
            n == value@.len(),
            i <= n,
            out@ == quoted_text(value@.subrange(0, i as int), backticks),
        decreases n - i,
    {
        let c = value.get_char(i);
        if c == '\'' {
            push_char(&mut out, '\'');
            push_char(&mut out, '\'');
        } else if backticks && c == '`' {
            push_char(&mut out, '`');
            push_char(&mut out, '`');
        } else {
            push_char(&mut out, c);
        }
        proof {
            let next = value@.subrange(0, (i + 1) as int);
            assert(next.drop_last() =~= value@.subrange(0, i as int));
            assert(next.last() == c);
            assert(out@ =~= quoted_text(next, backticks));
        }
        i = i + 1;
    }
    proof {
        assert(value@.subrange(0, n as int) =~= value@);
    }
    out
}

/// A text made safe inside a single-quoted PowerShell string: backticks
/// and single quotes are doubled.
pub fn powershell_single_quoted(value: &str) -> (r: String)
    ensures
        r@ == quoted_text(value@, true),
{
    quote_for_powershell(value, true)
}

/// A path made safe inside a single-quoted PowerShell string: single quotes
/// are doubled.
pub fn powershell_single_quoted_path(path: &str) -> (r: String)
    ensures
        r@ == quoted_text(path@, false),
{
    quote_for_powershell(path, false)
}

/// The two Windows file dialogs.
#[derive(Clone, Copy, Debug, PartialEq, Eq, Structural)]
pub enum DialogKind {
    Open,
    Save,
}

/// The PowerShell script that shows a mapping file dialog and prints the
/// chosen path.
pub open spec fn dialog_script_text(kind: DialogKind, default_name: Seq<char>) -> Seq<char> {
    let dialog_type = match kind {
        DialogKind::Open => "OpenFileDialog"@,
        DialogKind::Save => "SaveFileDialog"@,
    };
    let check = match kind {
        DialogKind::Open => "$dialog.CheckFileExists = $true;"@,
        DialogKind::Save => "$dialog.OverwritePrompt = $true;"@,
    };
    "[Console]::OutputEncoding = [System.Text.UTF8Encoding]::new($false);\nAdd-Type -AssemblyName System.Windows.Forms;\n$dialog = New-Object System.Windows.Forms."@
        + dialog_type + ";\n$dialog.Filter = '"@ + quoted_text(FILTER@, true)
        + "';\n$dialog.DefaultExt = 'json';\n$dialog.AddExtension = $true;\n$dialog.FileName = '"@
        + quoted_text(default_name, true) + "';\n"@ + check
        + "\nif ($dialog.ShowDialog() -eq [System.Windows.Forms.DialogResult]::OK) {\n    [Console]::Write($dialog.FileName)\n}"@
}

pub fn dialog_script(kind: DialogKind, default_name: &str) -> (r: String)
    ensures
        r@ == dialog_script_text(kind, default_name@),
{
    let dialog_type = match kind {
        DialogKind::Open => "OpenFileDialog",
        DialogKind::Save => "SaveFileDialog",
    };
    let check = match kind {
        DialogKind::Open => "$dialog.CheckFileExists = $true;",
        DialogKind::Save => "$dialog.OverwritePrompt = $true;",
    };
    let safe_name = powershell_single_quoted(default_name);
    let safe_filter = powershell_single_quoted(FILTER);
    let mut s = String::from_str(
        "[Console]::OutputEncoding = [System.Text.UTF8Encoding]::new($false);\nAdd-Type -AssemblyName System.Windows.Forms;\n$dialog = New-Object System.Windows.Forms.",
    );
    s.append(dialog_type);
    s.append(";\n$dialog.Filter = '");
    s.append(safe_filter.as_str());
    s.append("';\n$dialog.DefaultExt = 'json';\n$dialog.AddExtension = $true;\n$dialog.FileName = '");
    s.append(safe_name.as_str());
    s.append("';\n");
    s.append(check);
    s.append(
        "\nif ($dialog.ShowDialog() -eq [System.Windows.Forms.DialogResult]::OK) {\n    [Console]::Write($dialog.FileName)\n}",
    );
    s
}

/// The Unicode `White_Space` characters, which `char::is_whitespace`
/// accepts: tab through carriage return, space, next line, no-break space,
/// Ogham space mark, the spaces from en quad to hair space, line and
/// paragraph separators, narrow no-break space, medium mathematical space
/// and ideographic space.
pub open spec fn unicode_white_space(c: char) -> bool {
    let v = c as u32;
    ||| 0x09 <= v <= 0x0D
    ||| v == 0x20
    ||| v == 0x85
    ||| v == 0xA0
    ||| v == 0x1680
    ||| 0x2000 <= v <= 0x200A
    ||| v == 0x2028
    ||| v == 0x2029
    ||| v == 0x202F
    ||| v == 0x205F
    ||| v == 0x3000
}

/// Whether a character is white space.
fn is_white_space(c: char) -> (r: bool)
    ensures
        r == unicode_white_space(c),
{
    let v = c as u32;
    (0x09 <= v && v <= 0x0D) || v == 0x20 || v == 0x85 || v == 0xA0 || v == 0x1680 || (0x2000
        <= v && v <= 0x200A) || v == 0x2028 || v == 0x2029 || v == 0x202F || v == 0x205F || v
        == 0x3000
}

/// A name that is empty or white space only (what `str::trim` empties).
pub open spec fn blank_name(name: Seq<char>) -> bool {
    forall|i: int| 0 <= i < name.len() ==> #[trigger] unicode_white_space(name[i])
}

pub fn is_blank(name: &str) -> (r: bool)
    ensures
        r == blank_name(name@),
{
    let n = name.unicode_len();
    let mut i: usize = 0;
    while i < n
        invariant
            n == name@.len(),
            i <= n,
            forall|j: int| 0 <= j < i ==> #[trigger] unicode_white_space(name@[j]),
        decreases n - i,
    {
        if !is_white_space(name.get_char(i)) {
            return false;
        }
        i = i + 1;
    }
    true
}

/// Adopts an imported profile for the selected controller: it is bound to
/// that controller's GUID, and a blank name becomes `Imported profile`;
/// the mappings are kept as they are.
pub fn adopt_imported_profile(profile: ControllerProfile, device_guid: String) -> (r: ControllerProfile)
    ensures
        r.device_guid == device_guid,
        r.entries == profile.entries,
        blank_name(profile.name@) ==> r.name@ == "Imported profile"@,
        !blank_name(profile.name@) ==> r.name == profile.name,
{
    let mut profile = profile;
    profile.device_guid = device_guid;
    if is_blank(profile.name.as_str()) {
        profile.name = String::from_str("Imported profile");
    }
    profile
}

} // verus!
