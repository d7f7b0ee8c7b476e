//! Shell integration: the hook files and the line in the shell's start-up
//! file that loads them. Writing the files is the caller's part.

use crate::Environment;
use crate::paths::file_name;
use crate::paths::joined;
use crate::paths::path_file_name;
use crate::text::contains;
use crate::text::from_chars;
use crate::text::has_substring;
use crate::text::join_rows;
use crate::text::joined_with;
use crate::text::lines;
use crate::text::push_str;
use crate::text::rows;
use crate::text::split_lines;
use crate::text::str_eq;
use crate::text::to_chars;
use crate::text::trim;
use crate::text::trimmed;
use vstd::prelude::*;

verus! {

/// The ZSH hook file up to the application directory.
pub const ZSH_HOOK_HEAD: &'static str = r###"# KlipDot ZSH Integration
KLIPDOT_DIR=""###;

/// The ZSH hook file between the application directory and the binary.
pub const ZSH_HOOK_MIDDLE: &'static str = r###""
KLIPDOT_BIN=""###;

/// The ZSH hook file after the binary.
pub const ZSH_HOOK_TAIL: &'static str = r###""

# Function to handle image files
klipdot_handle_image() {
    local file_path="$1"
    if [[ -f "$file_path" ]]; then
        local mime_type=$(file --mime-type -b "$file_path" 2>/dev/null)
        if [[ "$mime_type" =~ ^image/ ]]; then
            "$KLIPDOT_BIN" --quiet process-file "$file_path" 2>/dev/null &
            return $?
        fi
    fi
    return 1
}

# Hook into command execution
preexec_klipdot() {
    local cmd="$1"
    
    # Check for image-related commands
    if [[ "$cmd" =~ (cp|mv|scp|rsync).*\.(png|jpg|jpeg|gif|bmp|webp|svg) ]]; then
        echo "[KlipDot] Image operation detected"
    fi
    
    # Check for file arguments that might be images
    local args=("${(@s/ /)cmd}")
    for arg in "${args[@]}"; do
        if [[ -f "$arg" ]]; then
            klipdot_handle_image "$arg"
        fi
    done
}

# Hook into command completion
precmd_klipdot() {
    # Check for new files in current directory
    for file in *.{png,jpg,jpeg,gif,bmp,webp,svg}(N); do
        if [[ -f "$file" ]]; then
            klipdot_handle_image "$file"
        fi
    done
}

# Add hooks to ZSH
if [[ -n "$ZSH_VERSION" ]]; then
    autoload -Uz add-zsh-hook
    add-zsh-hook preexec preexec_klipdot
    add-zsh-hook precmd precmd_klipdot
fi

# Enhanced aliases
alias cp='klipdot_cp'
alias mv='klipdot_mv'
alias scp='klipdot_scp'

klipdot_cp() {
    local result
    command cp "$@"
    result=$?
    
    for arg in "$@"; do
        if [[ -f "$arg" ]]; then
            klipdot_handle_image "$arg"
        fi
    done
    
    return $result
}

klipdot_mv() {
    local result
    command mv "$@"
    result=$?
    
    for arg in "$@"; do
        if [[ -f "$arg" ]]; then
            klipdot_handle_image "$arg"
        fi
    done
    
    return $result
}

klipdot_scp() {
    local result
    command scp "$@"
    result=$?
    
    for arg in "$@"; do
        if [[ -f "$arg" ]]; then
            klipdot_handle_image "$arg"
        fi
    done
    
    return $result
}
"###;

/// The Bash hook file up to the application directory.
pub const BASH_HOOK_HEAD: &'static str = r###"# KlipDot Bash Integration
KLIPDOT_DIR=""###;

/// The Bash hook file between the application directory and the binary.
pub const BASH_HOOK_MIDDLE: &'static str = r###""
KLIPDOT_BIN=""###;

/// The Bash hook file after the binary.
pub const BASH_HOOK_TAIL: &'static str = r###""

# Function to handle image files
klipdot_handle_image() {
    local file_path="$1"
    if [[ -f "$file_path" ]]; then
        local mime_type=$(file --mime-type -b "$file_path" 2>/dev/null)
        if [[ "$mime_type" =~ ^image/ ]]; then
            "$KLIPDOT_BIN" --quiet process-file "$file_path" 2>/dev/null &
            return $?
        fi
    fi
    return 1
}

# Hook into command execution
klipdot_preexec() {
    local cmd="$BASH_COMMAND"
    
    # Check for image-related commands
    if [[ "$cmd" =~ (cp|mv|scp|rsync).*\.(png|jpg|jpeg|gif|bmp|webp|svg) ]]; then
        echo "[KlipDot] Image operation detected"
    fi
    
    # Check for file arguments that might be images
    for arg in $cmd; do
        if [[ -f "$arg" ]]; then
            klipdot_handle_image "$arg"
        fi
    done
}

# Hook into prompt
klipdot_precmd() {
    # Check for new files in current directory
    for file in *.{png,jpg,jpeg,gif,bmp,webp,svg}; do
        if [[ -f "$file" ]] 2>/dev/null; then
            klipdot_handle_image "$file"
        fi
    done 2>/dev/null
}

# Set up command hooks
trap 'klipdot_preexec' DEBUG
if [[ -z "$PROMPT_COMMAND" ]]; then
    PROMPT_COMMAND="klipdot_precmd"
else
    PROMPT_COMMAND="klipdot_precmd;$PROMPT_COMMAND"
fi

# Enhanced aliases
alias cp='klipdot_cp'
alias mv='klipdot_mv'
alias scp='klipdot_scp'

klipdot_cp() {
    local result
    command cp "$@"
    result=$?
    
    for arg in "$@"; do
        if [[ -f "$arg" ]]; then
            klipdot_handle_image "$arg"
        fi
    done
    
    return $result
}

klipdot_mv() {
    local result
    command mv "$@"
    result=$?
    
    for arg in "$@"; do
        if [[ -f "$arg" ]]; then
            klipdot_handle_image "$arg"
        fi
    done
    
    return $result
}

klipdot_scp() {
    local result
    command scp "$@"
    result=$?
    
    for arg in "$@"; do
        if [[ -f "$arg" ]]; then
            klipdot_handle_image "$arg"
        fi
    done
    
    return $result
}
"###;

/// The desktop entry up to the binary.
pub const DESKTOP_ENTRY_HEAD: &'static str = r###"[Desktop Entry]
Name=KlipDot
Comment=Universal terminal image interceptor
Exec="###;

/// The desktop entry after the binary.
pub const DESKTOP_ENTRY_TAIL: &'static str = r###" start --daemon
Icon=image-x-generic
Type=Application
Categories=Utility;System;
StartupNotify=false
NoDisplay=true
"###;

/// The service unit up to the binary.
pub const SYSTEMD_SERVICE_HEAD: &'static str = r###"[Unit]
Description=KlipDot Universal Terminal Image Interceptor
After=graphical-session.target

[Service]
Type=simple
ExecStart="###;

/// The service unit after the binary.
pub const SYSTEMD_SERVICE_TAIL: &'static str = r###" start --daemon
Restart=always
RestartSec=5
Environment=DISPLAY=:0

[Install]
WantedBy=default.target
"###;

/// The comment line that marks the source line in a start-up file.
pub const SOURCE_MARK: &'static str = "# KlipDot Terminal Interceptor";

/// A file and what is to be written to it.
#[derive(Debug, Clone)]
pub struct FileToWrite {
    pub path: String,
    pub content: String,
}

/// What installing the hooks of a shell comes to.
#[derive(Debug, Clone)]
pub struct InstallPlan {
    /// The directory to create for the hook file.
    pub hooks_dir: String,
    /// The hook file.
    pub hook_file: FileToWrite,
    /// The start-up file with the source line added; `None` where the line
    /// is there already and the file stays as it is.
    pub rc_file: Option<FileToWrite>,
}

/// What removing the hooks of a shell comes to.
#[derive(Debug, Clone)]
pub struct UninstallPlan {
    /// The start-up file without the source line; `None` where there is no
    /// start-up file.
    pub rc_file: Option<FileToWrite>,
    /// The directory to remove with all that is in it.
    pub hooks_dir: String,
}

/// Installs and removes the shell hooks of one shell.
#[derive(Debug, Clone)]
pub struct ShellInstaller {
    pub shell_type: String,
    pub home_dir: String,
    pub shell_rc_path: String,
    pub hooks_dir: String,
}

/// The name of the start-up file of a shell: `.zshrc` for `zsh`, `.bashrc`
/// for every other.
pub open spec fn rc_name(shell_type: Seq<char>) -> Seq<char> {
    if shell_type == "zsh"@ {
        ".zshrc"@
    } else {
        ".bashrc"@
    }
}

/// The name of the hook file of a shell: that of ZSH for `zsh`, that of
/// Bash for every other.
pub open spec fn hook_file_name(shell_type: Seq<char>) -> Seq<char> {
    if shell_type == "zsh"@ {
        "zsh-hooks.zsh"@
    } else {
        "bash-hooks.bash"@
    }
}

/// The content of the ZSH hook file.
pub open spec fn zsh_hook_text(klipdot_dir: Seq<char>, klipdot_bin: Seq<char>) -> Seq<char> {
    ZSH_HOOK_HEAD@ + klipdot_dir + ZSH_HOOK_MIDDLE@ + klipdot_bin + ZSH_HOOK_TAIL@
}

/// The content of the Bash hook file.
pub open spec fn bash_hook_text(klipdot_dir: Seq<char>, klipdot_bin: Seq<char>) -> Seq<char> {
    BASH_HOOK_HEAD@ + klipdot_dir + BASH_HOOK_MIDDLE@ + klipdot_bin + BASH_HOOK_TAIL@
}

/// The line that loads a hook file.
pub open spec fn source_line_text(hook_file: Seq<char>) -> Seq<char> {
    "source \""@ + hook_file + "\""@
}

/// A start-up file with the source line added, after its mark.
pub open spec fn with_source_line_text(content: Seq<char>, source_line: Seq<char>) -> Seq<char> {
    content + "\n"@ + SOURCE_MARK@ + "\n"@ + source_line + "\n"@
}

/// The lines that stay when the source line is removed, from line `i` on.
/// A line that holds the mark goes, and so does the line after it where
/// that holds `klipdot`. `skip` says whether the line before held the
/// mark.
pub open spec fn kept_lines(all: Seq<Seq<char>>, i: int, skip: bool) -> Seq<Seq<char>>
    decreases all.len() - i,
{
    if i < 0 || i >= all.len() {
        Seq::empty()
    } else if contains(all[i], SOURCE_MARK@) {
        kept_lines(all, i + 1, true)
    } else if skip && contains(all[i], "klipdot"@) {
        kept_lines(all, i + 1, false)
    } else {
        seq![all[i]] + kept_lines(all, i + 1, false)
    }
}

/// A start-up file with the source line and its mark removed.
pub open spec fn without_source_line_text(content: Seq<char>) -> Seq<char> {
    joined_with(kept_lines(lines(content), 0, false), "\n"@)
}

/// The usual places of the binary, in the order in which they are tried.
pub open spec fn common_binary_paths() -> Seq<Seq<char>> {
    seq!["/usr/local/bin/klipdot"@, "/usr/bin/klipdot"@, "/opt/klipdot/bin/klipdot"@]
}

/// The path of the binary: what `which` printed, without surrounding white
/// space; else the first usual place where it is; else the running
/// program; else its bare name. `common_present` says of each of the
/// [`common_binary_paths`] whether it exists.
pub open spec fn binary_path(
    which_output: Option<Seq<char>>,
    common_present: Seq<bool>,
    current_exe: Option<Seq<char>>,
) -> Seq<char> {
    if which_output is Some {
        trimmed(which_output.unwrap())
    } else if crate::image_preview::first_set(common_present) is Some
        && crate::image_preview::first_set(common_present).unwrap() < common_binary_paths().len() {
        common_binary_paths()[crate::image_preview::first_set(common_present).unwrap()]
    } else if current_exe is Some {
        current_exe.unwrap()
    } else {
        "klipdot"@
    }
}

/// Chooses the path of the binary from what the caller found: the output
/// of a successful `which klipdot`, which of the usual places exist, and
/// the path of the running program.
pub fn choose_binary_path(
    which_output: Option<&str>,
    common_present: &[bool],
    current_exe: Option<&str>,
) -> (r: String)
    ensures
        r@ == binary_path(
            crate::stdout_monitor::opt_str(which_output),
            common_present@,
            crate::stdout_monitor::opt_str(current_exe),
        ),
{
    if let Some(out) = which_output {
        let chars = to_chars(out);
        return from_chars(trim(chars.as_slice()).as_slice());
    }
    let names = vec!["/usr/local/bin/klipdot", "/usr/bin/klipdot", "/opt/klipdot/bin/klipdot"];
    assert(crate::text::slices(names@) =~= common_binary_paths());
    if let Some(i) = crate::image_preview::find_first_set(common_present) {
        if i < names.len() {
            assert(crate::text::slices(names@)[i as int] == names@[i as int]@);
            return names[i].to_string();
        }
    }
    if let Some(exe) = current_exe {
        return exe.to_string();
    }
    "klipdot".to_string()
}

/// Builds the content of the ZSH hook file.
pub fn zsh_hook_content(klipdot_dir: &str, klipdot_bin: &str) -> (r: String)
    ensures
        r@ == zsh_hook_text(klipdot_dir@, klipdot_bin@),
{
    let mut out: Vec<char> = Vec::new();
    push_str(&mut out, ZSH_HOOK_HEAD);
    push_str(&mut out, klipdot_dir);
    push_str(&mut out, ZSH_HOOK_MIDDLE);
    push_str(&mut out, klipdot_bin);
    push_str(&mut out, ZSH_HOOK_TAIL);
    assert(out@ =~= zsh_hook_text(klipdot_dir@, klipdot_bin@));
    from_chars(out.as_slice())
}

/// Builds the content of the Bash hook file.
pub fn bash_hook_content(klipdot_dir: &str, klipdot_bin: &str) -> (r: String)
    ensures
        r@ == bash_hook_text(klipdot_dir@, klipdot_bin@),
{
    let mut out: Vec<char> = Vec::new();
    push_str(&mut out, BASH_HOOK_HEAD);
    push_str(&mut out, klipdot_dir);
    push_str(&mut out, BASH_HOOK_MIDDLE);
    push_str(&mut out, klipdot_bin);
    push_str(&mut out, BASH_HOOK_TAIL);
    assert(out@ =~= bash_hook_text(klipdot_dir@, klipdot_bin@));
    from_chars(out.as_slice())
}

/// Adds the source line to the content of a start-up file, unless it is
/// there already.
pub fn with_source_line(content: &str, source_line: &str) -> (r: Option<String>)
    ensures
        match r {
            Some(c) => !contains(content@, source_line@) && c@ == with_source_line_text(
                content@,
                source_line@,
            ),
            None => contains(content@, source_line@),
        },
{
    if crate::text::str_contains(content, source_line) {
        return None;
    }
    let mut out: Vec<char> = Vec::new();
    push_str(&mut out, content);
    push_str(&mut out, "\n");
    push_str(&mut out, SOURCE_MARK);
    push_str(&mut out, "\n");
    push_str(&mut out, source_line);
    push_str(&mut out, "\n");
    assert(out@ =~= with_source_line_text(content@, source_line@));
    Some(from_chars(out.as_slice()))
}

/// Removes the source line and its mark from the content of a start-up
/// file.
pub fn without_source_line(content: &str) -> (r: String)
    ensures
        r@ == without_source_line_text(content@),
{
    let chars = to_chars(content);
    let all = split_lines(chars.as_slice());
    let mark = to_chars(SOURCE_MARK);
    let word = to_chars("klipdot");
    let mut kept: Vec<Vec<char>> = Vec::new();
    let mut skip = false;
    let mut i: usize = 0;
    assert(rows(kept@) + kept_lines(rows(all@), 0, false) =~= kept_lines(rows(all@), 0, false));
    while i < all.len()
        invariant
            i <= all.len(),
            mark@ == SOURCE_MARK@,
            word@ == "klipdot"@,
            rows(kept@) + kept_lines(rows(all@), i as int, skip) == kept_lines(
                rows(all@),
                0,
                false,
            ),
        decreases all.len() - i,
    {
        let ghost before = rows(kept@);
        assert(rows(all@)[i as int] == all@[i as int]@);
        if has_substring(all[i].as_slice(), mark.as_slice()) {
            skip = true;
        } else if skip && has_substring(all[i].as_slice(), word.as_slice()) {
            skip = false;
        } else {
            let ghost was = skip;
            skip = false;
            kept.push(all[i].clone());
            assert(rows(kept@) =~= before.push(all@[i as int]@));
            assert(rows(kept@) + kept_lines(rows(all@), i + 1, false) =~= before + kept_lines(
                rows(all@),
                i as int,
                was,
            ));
        }
        i += 1;
    }
    assert(kept_lines(rows(all@), i as int, skip) =~= Seq::<Seq<char>>::empty());
    assert(rows(kept@) + Seq::<Seq<char>>::empty() =~= rows(kept@));
    let newline = to_chars("\n");
    from_chars(join_rows(kept.as_slice(), newline.as_slice()).as_slice())
}

/// Once the source line was added it is there: adding it again changes
/// nothing.
pub proof fn lemma_source_line_is_added_once(content: Seq<char>, source_line: Seq<char>)
    ensures
        contains(with_source_line_text(content, source_line), source_line),
{
    let added = with_source_line_text(content, source_line);
    let at = (content.len() + "\n"@.len() + SOURCE_MARK@.len() + "\n"@.len()) as int;
    assert(added.subrange(at, at + source_line.len()) =~= source_line);
    assert(crate::text::occurs_at(added, source_line, at));
}

/// No line that is kept holds the mark.
pub proof fn lemma_kept_lines_hold_no_mark(all: Seq<Seq<char>>, i: int, skip: bool)
    requires
        0 <= i,
    ensures
        forall|k: int|
            0 <= k < kept_lines(all, i, skip).len() ==> !contains(
                #[trigger] kept_lines(all, i, skip)[k],
                SOURCE_MARK@,
            ),
    decreases all.len() - i,
{
    if i < all.len() {
        lemma_kept_lines_hold_no_mark(all, i + 1, true);
        lemma_kept_lines_hold_no_mark(all, i + 1, false);
        let kept = kept_lines(all, i, skip);
        let rest = kept_lines(all, i + 1, false);
        assert forall|k: int| 0 <= k < kept.len() implies !contains(
            #[trigger] kept[k],
            SOURCE_MARK@,
        ) by {
            if contains(all[i], SOURCE_MARK@) {
                assert(kept[k] == kept_lines(all, i + 1, true)[k]);
            } else if skip && contains(all[i], "klipdot"@) {
                assert(kept[k] == rest[k]);
            } else if k > 0 {
                assert(kept[k] == rest[k - 1]);
            } else {
                assert(kept[k] == all[i]);
            }
        }
    }
}

/// Builds the content of the desktop entry that starts the binary.
pub fn desktop_entry_content(klipdot_bin: &str) -> (r: String)
    ensures
        r@ == DESKTOP_ENTRY_HEAD@ + klipdot_bin@ + DESKTOP_ENTRY_TAIL@,
{
    let mut out: Vec<char> = Vec::new();
    push_str(&mut out, DESKTOP_ENTRY_HEAD);
    push_str(&mut out, klipdot_bin);
    push_str(&mut out, DESKTOP_ENTRY_TAIL);
    from_chars(out.as_slice())
}

/// Builds the content of the service unit that starts the binary.
pub fn systemd_service_content(klipdot_bin: &str) -> (r: String)
    ensures
        r@ == SYSTEMD_SERVICE_HEAD@ + klipdot_bin@ + SYSTEMD_SERVICE_TAIL@,
{
    let mut out: Vec<char> = Vec::new();
    push_str(&mut out, SYSTEMD_SERVICE_HEAD);
    push_str(&mut out, klipdot_bin);
    push_str(&mut out, SYSTEMD_SERVICE_TAIL);
    from_chars(out.as_slice())
}

impl ShellInstaller {
    /// Whether this is the installer for `shell_type` of a user whose home
    /// directory is `home`.
    pub open spec fn is_for(self, shell_type: Seq<char>, home: Seq<char>) -> bool {
        &&& self.shell_type@ == shell_type
        &&& self.home_dir@ == home
        &&& self.shell_rc_path@ == joined(home, rc_name(shell_type))
        &&& self.hooks_dir@ == joined(joined(home, crate::HOME_SUBDIR@), crate::HOOKS_DIR@)
    }

    /// The installer for `shell_type` of a user whose home directory is
    /// `home`.
    pub fn with_home(shell_type: &str, home: &str) -> (r: Self)
        ensures
            r.is_for(shell_type@, home@),
    {
        let klipdot_dir = crate::paths::join(home, crate::HOME_SUBDIR);
        ShellInstaller {
            shell_type: shell_type.to_string(),
            home_dir: home.to_string(),
            shell_rc_path: Self::get_shell_rc_path(home, shell_type),
            hooks_dir: crate::paths::join(klipdot_dir.as_str(), crate::HOOKS_DIR),
        }
    }

    /// The installer for `shell_type` of the current user. Where no home
    /// directory is known, `/tmp` stands for it.
    pub fn new(shell_type: &str) -> (r: Self)
        ensures
            exists|home: Seq<char>| #[trigger] r.is_for(shell_type@, home),
    {
        let home = match crate::paths::home_dir() {
            Some(h) => h,
            None => "/tmp".to_string(),
        };
        let r = Self::with_home(shell_type, home.as_str());
        assert(r.is_for(shell_type@, home@));
        r
    }

    /// The shell that the environment names: the last component of `SHELL`,
    /// or of `/bin/bash` where `SHELL` is not set.
    pub open spec fn shell_of(env: Environment) -> Seq<char> {
        match env.shell {
            Some(shell) => file_name(shell@),
            None => file_name("/bin/bash"@),
        }
    }

    /// The name of the shell that the environment names.
    pub fn shell_name(env: &Environment) -> (r: String)
        ensures
            r@ == Self::shell_of(*env),
    {
        let chars = match &env.shell {
            Some(shell) => to_chars(shell.as_str()),
            None => to_chars("/bin/bash"),
        };
        from_chars(path_file_name(chars.as_slice()).as_slice())
    }

    /// The installer for the shell that the environment names.
    pub fn detect_shell(env: &Environment) -> (r: Self)
        ensures
            exists|home: Seq<char>| #[trigger] r.is_for(Self::shell_of(*env), home),
    {
        let shell = Self::shell_name(env);
        Self::new(shell.as_str())
    }

    /// The path of the start-up file of a shell.
    pub fn get_shell_rc_path(home_dir: &str, shell_type: &str) -> (r: String)
        ensures
            r@ == joined(home_dir@, rc_name(shell_type@)),
    {
        if str_eq(shell_type, "zsh") {
            crate::paths::join(home_dir, ".zshrc")
        } else {
            crate::paths::join(home_dir, ".bashrc")
        }
    }

    /// The path of the hook file of this installer's shell.
    pub fn hook_file(&self) -> (r: String)
        ensures
            r@ == joined(self.hooks_dir@, hook_file_name(self.shell_type@)),
    {
        if str_eq(self.shell_type.as_str(), "zsh") {
            crate::paths::join(self.hooks_dir.as_str(), "zsh-hooks.zsh")
        } else {
            crate::paths::join(self.hooks_dir.as_str(), "bash-hooks.bash")
        }
    }

    /// The line that loads the hook file of this installer's shell.
    pub fn source_line(&self) -> (r: String)
        ensures
            r@ == source_line_text(joined(self.hooks_dir@, hook_file_name(self.shell_type@))),
    {
        let file = self.hook_file();
        let mut out: Vec<char> = Vec::new();
        push_str(&mut out, "source \"");
        push_str(&mut out, file.as_str());
        push_str(&mut out, "\"");
        assert(out@ =~= source_line_text(file@));
        from_chars(out.as_slice())
    }

    /// The content of the hook file of this installer's shell.
    pub fn hook_content(&self, klipdot_dir: &str, klipdot_bin: &str) -> (r: String)
        ensures
            r@ == (if self.shell_type@ == "zsh"@ {
                zsh_hook_text(klipdot_dir@, klipdot_bin@)
            } else {
                bash_hook_text(klipdot_dir@, klipdot_bin@)
            }),
    {
        if str_eq(self.shell_type.as_str(), "zsh") {
            zsh_hook_content(klipdot_dir, klipdot_bin)
        } else {
            bash_hook_content(klipdot_dir, klipdot_bin)
        }
    }

    /// The application directory that the hook files name: that of the
    /// current user, or the one below this installer's home directory where
    /// the current user's is not known.
    pub fn klipdot_dir(&self) -> (r: String)
        ensures
            exists|home: Seq<char>| r@ == #[trigger] joined(home, crate::HOME_SUBDIR@),
    {
        match crate::get_home_dir() {
            Ok(dir) => dir,
            Err(_) => {
                let r = crate::paths::join(self.home_dir.as_str(), crate::HOME_SUBDIR);
                assert(r@ == joined(self.home_dir@, crate::HOME_SUBDIR@));
                r
            },
        }
    }

    /// The content of the ZSH hook file for the binary at `klipdot_bin`.
    pub fn generate_zsh_hook_content(&self, klipdot_bin: &str) -> (r: String)
        ensures
            exists|home: Seq<char>|
                r@ == zsh_hook_text(#[trigger] joined(home, crate::HOME_SUBDIR@), klipdot_bin@),
    {
        let dir = self.klipdot_dir();
        zsh_hook_content(dir.as_str(), klipdot_bin)
    }

    /// The content of the Bash hook file for the binary at `klipdot_bin`.
    pub fn generate_bash_hook_content(&self, klipdot_bin: &str) -> (r: String)
        ensures
            exists|home: Seq<char>|
                r@ == bash_hook_text(#[trigger] joined(home, crate::HOME_SUBDIR@), klipdot_bin@),
    {
        let dir = self.klipdot_dir();
        bash_hook_content(dir.as_str(), klipdot_bin)
    }

    /// The content of the start-up file with the source line added; `None`
    /// where the line is there already and nothing needs writing.
    pub fn add_source_line(&self, content: &str) -> (r: Option<String>)
        ensures
            ({
                let line = source_line_text(
                    joined(self.hooks_dir@, hook_file_name(self.shell_type@)),
                );
                match r {
                    Some(c) => !contains(content@, line) && c@ == with_source_line_text(
                        content@,
                        line,
                    ),
                    None => contains(content@, line),
                }
            }),
    {
        let line = self.source_line();
        with_source_line(content, line.as_str())
    }

    /// The content of the start-up file with the source line removed.
    pub fn remove_source_line(&self, content: &str) -> (r: String)
        ensures
            r@ == without_source_line_text(content@),
    {
        without_source_line(content)
    }

    /// Says what installing the hooks comes to, given the path of the
    /// binary and the content of the start-up file, which counts as empty
    /// where there is none.
    pub fn install(&self, klipdot_dir: &str, klipdot_bin: &str, rc_content: Option<&str>) -> (r:
        InstallPlan)
        ensures
            r.hooks_dir@ == self.hooks_dir@,
            r.hook_file.path@ == joined(self.hooks_dir@, hook_file_name(self.shell_type@)),
            r.hook_file.content@ == (if self.shell_type@ == "zsh"@ {
                zsh_hook_text(klipdot_dir@, klipdot_bin@)
            } else {
                bash_hook_text(klipdot_dir@, klipdot_bin@)
            }),
            ({
                let line = source_line_text(
                    joined(self.hooks_dir@, hook_file_name(self.shell_type@)),
                );
                let content = match rc_content {
                    Some(c) => c@,
                    None => Seq::empty(),
                };
                match r.rc_file {
                    Some(file) => !contains(content, line) && file.path@ == self.shell_rc_path@
                        && file.content@ == with_source_line_text(content, line),
                    None => contains(content, line),
                }
            }),
    {
        let content = match rc_content {
            Some(c) => c,
            None => {
                proof {
                    reveal_strlit("");
                    assert(""@ =~= Seq::<char>::empty());
                }
                ""
            },
        };
        let rc_file = match self.add_source_line(content) {
            Some(new_content) => Some(
                FileToWrite { path: self.shell_rc_path.clone(), content: new_content },
            ),
            None => None,
        };
        InstallPlan {
            hooks_dir: self.hooks_dir.clone(),
            hook_file: FileToWrite {
                path: self.hook_file(),
                content: self.hook_content(klipdot_dir, klipdot_bin),
            },
            rc_file,
        }
    }

    /// Says what removing the hooks comes to, given the content of the
    /// start-up file where there is one.
    pub fn uninstall(&self, rc_content: Option<&str>) -> (r: UninstallPlan)
        ensures
            r.hooks_dir@ == self.hooks_dir@,
            match rc_content {
                Some(c) => r.rc_file is Some && r.rc_file.unwrap().path@ == self.shell_rc_path@
                    && r.rc_file.unwrap().content@ == without_source_line_text(c@),
                None => r.rc_file is None,
            },
    {
        UninstallPlan {
            rc_file: match rc_content {
                Some(c) => Some(
                    FileToWrite {
                        path: self.shell_rc_path.clone(),
                        content: self.remove_source_line(c),
                    },
                ),
                None => None,
            },
            hooks_dir: self.hooks_dir.clone(),
        }
    }

    /// The desktop entry that starts the binary, and where it goes.
    pub fn create_desktop_entry(&self, klipdot_bin: &str) -> (r: FileToWrite)
        ensures
            r.path@ == joined(
                joined(self.home_dir@, ".local/share/applications"@),
                "klipdot.desktop"@,
            ),
            r.content@ == DESKTOP_ENTRY_HEAD@ + klipdot_bin@ + DESKTOP_ENTRY_TAIL@,
    {
        FileToWrite {
            path: self.desktop_entry_path(),
            content: desktop_entry_content(klipdot_bin),
        }
    }

    /// The service unit that starts the binary, and where it goes.
    pub fn create_systemd_service(&self, klipdot_bin: &str) -> (r: FileToWrite)
        ensures
            r.path@ == joined(joined(self.home_dir@, ".config/systemd/user"@), "klipdot.service"@),
            r.content@ == SYSTEMD_SERVICE_HEAD@ + klipdot_bin@ + SYSTEMD_SERVICE_TAIL@,
    {
        FileToWrite {
            path: self.systemd_service_path(),
            content: systemd_service_content(klipdot_bin),
        }
    }

    /// The path of the desktop entry.
    pub fn desktop_entry_path(&self) -> (r: String)
        ensures
            r@ == joined(joined(self.home_dir@, ".local/share/applications"@), "klipdot.desktop"@),
    {
        let dir = crate::paths::join(self.home_dir.as_str(), ".local/share/applications");
        crate::paths::join(dir.as_str(), "klipdot.desktop")
    }

    /// The path of the service unit.
    pub fn systemd_service_path(&self) -> (r: String)
        ensures
            r@ == joined(joined(self.home_dir@, ".config/systemd/user"@), "klipdot.service"@),
    {
        let dir = crate::paths::join(self.home_dir.as_str(), ".config/systemd/user");
        crate::paths::join(dir.as_str(), "klipdot.service")
    }
}

} // verus!
