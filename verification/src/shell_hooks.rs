//! The shell side of the integration: which commands deal with images,
//! and the text of the functions that the shell loads.

use crate::error::Error;
use crate::patterns::regex_matches;
use crate::patterns::regex_refusal;
use crate::text::contains;
use crate::text::from_chars;
use crate::text::push_chars;
use crate::text::push_str;
use crate::text::rows;
use crate::text::slices;
use crate::text::split_whitespace;
use crate::text::str_eq;
use crate::text::texts;
use crate::text::to_chars;
use crate::text::words;
use vstd::prelude::*;

verus! {

/// The shell functions that the hooks call.
pub const HOOK_FUNCTIONS: &'static str = r###"
# KlipDot Hook Functions

klipdot_handle_file() {
    local file_path="$1"
    local source="${2:-terminal}"
    
    if [[ -f "$file_path" ]]; then
        local mime_type=$(file --mime-type -b "$file_path" 2>/dev/null || echo "")
        if [[ "$mime_type" =~ ^image/ ]]; then
            if command -v klipdot >/dev/null 2>&1; then
                klipdot --quiet process-file "$file_path" --source "$source" 2>/dev/null &
            fi
        fi
    fi
}

klipdot_scan_args() {
    local cmd="$1"
    shift
    
    for arg in "$@"; do
        if [[ -f "$arg" ]]; then
            klipdot_handle_file "$arg" "command"
        fi
    done
}

klipdot_monitor_directory() {
    local dir="${1:-.}"
    
    if [[ -d "$dir" ]]; then
        for file in "$dir"/*.{png,jpg,jpeg,gif,bmp,webp,svg}; do
            if [[ -f "$file" ]]; then
                local age=$(stat -c %Y "$file" 2>/dev/null || stat -f %m "$file" 2>/dev/null || echo 0)
                local now=$(date +%s)
                local diff=$((now - age))
                
                # Process files created/modified in the last 30 seconds
                if [[ $diff -lt 30 ]]; then
                    klipdot_handle_file "$file" "directory"
                fi
            fi
        done 2>/dev/null
    fi
}

klipdot_preexec_hook() {
    local cmd="$1"
    
    # Extract command and arguments
    local cmd_array=($cmd)
    local base_cmd="${cmd_array[0]}"
    
    # Check for image-related operations
    case "$base_cmd" in
        cp|mv|scp|rsync|wget|curl)
            klipdot_scan_args "$cmd" "${cmd_array[@]:1}"
            ;;
        screencapture|screenshot|scrot|gnome-screenshot|spectacle|flameshot)
            echo "[KlipDot] Screenshot command detected: $base_cmd"
            ;;
    esac
}

klipdot_precmd_hook() {
    # Monitor current directory for new images
    klipdot_monitor_directory "."
    
    # Also monitor common screenshot directories
    klipdot_monitor_directory "$HOME/Desktop"
    klipdot_monitor_directory "$HOME/Downloads"
    klipdot_monitor_directory "$HOME/Pictures"
}

# Clipboard monitoring function
klipdot_monitor_clipboard() {
    if command -v klipdot >/dev/null 2>&1; then
        klipdot --quiet monitor-clipboard 2>/dev/null &
    fi
}

# Initialize clipboard monitoring if not already running
if [[ -z "$KLIPDOT_CLIPBOARD_PID" ]]; then
    klipdot_monitor_clipboard
    export KLIPDOT_CLIPBOARD_PID=$!
fi
"###;

/// A command wrapper up to the first mention of the command.
pub const WRAPPER_PART_1: &'static str = r###"
"###;

/// A command wrapper between the first and second mention of the command.
pub const WRAPPER_PART_2: &'static str = r###"() {
    local result
    local cmd_line=""###;

/// A command wrapper between the second and third mention of the command.
pub const WRAPPER_PART_3: &'static str = r###" $*"
    
    # Pre-execution hook
    klipdot_preexec_hook "$cmd_line"
    
    # Execute original command
    command "###;

/// A command wrapper after the third mention of the command.
pub const WRAPPER_PART_4: &'static str = r###" "$@"
    result=$?
    
    # Post-execution hook
    klipdot_scan_args "$cmd_line" "$@"
    
    return $result
}
"###;

/// What hooks the functions into ZSH.
pub const ZSH_INTEGRATION: &'static str = r###"
# ZSH-specific integration
if [[ -n "$ZSH_VERSION" ]]; then
    autoload -Uz add-zsh-hook
    add-zsh-hook preexec klipdot_preexec_hook
    add-zsh-hook precmd klipdot_precmd_hook
fi
"###;

/// What hooks the functions into Bash.
pub const BASH_INTEGRATION: &'static str = r###"
# Bash-specific integration
if [[ -n "$BASH_VERSION" ]]; then
    trap 'klipdot_preexec_hook "$BASH_COMMAND"' DEBUG
    
    if [[ -z "$PROMPT_COMMAND" ]]; then
        PROMPT_COMMAND="klipdot_precmd_hook"
    else
        PROMPT_COMMAND="klipdot_precmd_hook;$PROMPT_COMMAND"
    fi
fi
"###;

/// What is known about the installation of the hooks.
#[derive(Debug, Clone, Copy, PartialEq, Eq, Structural)]
pub struct HookStatus {
    pub binary_available: bool,
    pub hooks_installed: bool,
    pub bash_integrated: bool,
    pub zsh_integrated: bool,
}

impl Default for HookStatus {
    /// Nothing is installed.
    fn default() -> (r: Self)
        ensures
            r == (HookStatus {
                binary_available: false,
                hooks_installed: false,
                bash_integrated: false,
                zsh_integrated: false,
            }),
    {
        HookStatus {
            binary_available: false,
            hooks_installed: false,
            bash_integrated: false,
            zsh_integrated: false,
        }
    }
}

/// The patterns of commands that deal with images.
pub open spec fn image_command_patterns() -> Seq<Seq<char>> {
    seq![
        r"cp.*\.(png|jpg|jpeg|gif|bmp|webp|svg)"@,
        r"mv.*\.(png|jpg|jpeg|gif|bmp|webp|svg)"@,
        r"scp.*\.(png|jpg|jpeg|gif|bmp|webp|svg)"@,
        r"rsync.*\.(png|jpg|jpeg|gif|bmp|webp|svg)"@,
        r"screencapture"@,
        r"screenshot"@,
        r"scrot"@,
        r"gnome-screenshot"@,
        r"import.*\.(png|jpg|jpeg|gif|bmp|webp|svg)"@,
        r"convert.*\.(png|jpg|jpeg|gif|bmp|webp|svg)"@,
    ]
}

/// The patterns of commands that deal with images.
pub fn image_command_pattern_list() -> (r: Vec<&'static str>)
    ensures
        slices(r@) == image_command_patterns(),
{
    let r = vec![
        r"cp.*\.(png|jpg|jpeg|gif|bmp|webp|svg)",
        r"mv.*\.(png|jpg|jpeg|gif|bmp|webp|svg)",
        r"scp.*\.(png|jpg|jpeg|gif|bmp|webp|svg)",
        r"rsync.*\.(png|jpg|jpeg|gif|bmp|webp|svg)",
        r"screencapture",
        r"screenshot",
        r"scrot",
        r"gnome-screenshot",
        r"import.*\.(png|jpg|jpeg|gif|bmp|webp|svg)",
        r"convert.*\.(png|jpg|jpeg|gif|bmp|webp|svg)",
    ];
    assert(slices(r@) =~= image_command_patterns());
    r
}

/// A command and the function that stands in for it.
#[derive(Debug, Clone)]
pub struct Alias {
    pub command: String,
    pub replacement: String,
}

/// A variable and its value.
#[derive(Debug, Clone)]
pub struct Variable {
    pub name: String,
    pub value: String,
}

/// Knows the commands that deal with images and writes the shell code
/// that hooks into them.
#[derive(Debug, Clone)]
pub struct ShellHookManager {
    patterns: Vec<String>,
    command_aliases: Vec<Alias>,
    environment_vars: Vec<Variable>,
}

/// The views of a list of aliases.
pub open spec fn alias_views(v: Seq<Alias>) -> Seq<(Seq<char>, Seq<char>)> {
    Seq::new(v.len(), |i: int| (v[i].command@, v[i].replacement@))
}

/// The views of a list of variables.
pub open spec fn variable_views(v: Seq<Variable>) -> Seq<(Seq<char>, Seq<char>)> {
    Seq::new(v.len(), |i: int| (v[i].name@, v[i].value@))
}

/// The commands that are wrapped, with the functions that stand in for
/// them.
pub open spec fn default_aliases() -> Seq<(Seq<char>, Seq<char>)> {
    seq![("cp"@, "klipdot_cp"@), ("mv"@, "klipdot_mv"@), ("scp"@, "klipdot_scp"@)]
}

/// The variables that the shell code sets.
pub open spec fn default_variables() -> Seq<(Seq<char>, Seq<char>)> {
    seq![("KLIPDOT_ENABLED"@, "1"@), ("KLIPDOT_LOG_LEVEL"@, "info"@)]
}

/// Whether no name stands first in two pairs.
pub open spec fn keys_distinct(pairs: Seq<(Seq<char>, Seq<char>)>) -> bool {
    forall|i: int, j: int|
        0 <= i < j < pairs.len() ==> (#[trigger] pairs[i]).0 != (#[trigger] pairs[j]).0
}

/// No command is wrapped twice and no variable set twice by default.
pub proof fn lemma_defaults_are_distinct()
    ensures
        keys_distinct(default_aliases()),
        keys_distinct(default_variables()),
{
    reveal_strlit("cp");
    reveal_strlit("mv");
    reveal_strlit("scp");
    reveal_strlit("KLIPDOT_ENABLED");
    reveal_strlit("KLIPDOT_LOG_LEVEL");
    let a = default_aliases();
    assert(a[0].0[0] == 'c' && a[1].0[0] == 'm' && a[2].0.len() == 3 && a[0].0.len() == 2);
    let v = default_variables();
    assert(v[0].0.len() == 15 && v[1].0.len() == 17);
}

/// Why the first `n` patterns cannot all be used, if they cannot: the
/// message for the first that does not compile.
pub open spec fn pattern_failure_upto(patterns: Seq<Seq<char>>, n: int) -> Option<Seq<char>>
    decreases n,
{
    if n <= 0 {
        None
    } else if pattern_failure_upto(patterns, n - 1) is Some {
        pattern_failure_upto(patterns, n - 1)
    } else {
        match regex_refusal(patterns[n - 1]) {
            Some(refusal) => Some(invalid_pattern_text(patterns[n - 1], refusal)),
            None => None,
        }
    }
}

/// The message for a pattern that does not compile.
pub open spec fn invalid_pattern_text(pattern: Seq<char>, refusal: Seq<char>) -> Seq<char> {
    "Invalid regex pattern '"@ + pattern + "': "@ + refusal
}

/// The parse error for a pattern that does not compile, given what the
/// compiler said.
pub fn invalid_pattern(pattern: &str, refusal: &str) -> (e: Error)
    ensures
        e matches Error::Parse(m) && m@ == invalid_pattern_text(pattern@, refusal@),
{
    let mut out: Vec<char> = Vec::new();
    push_str(&mut out, "Invalid regex pattern '");
    push_str(&mut out, pattern);
    push_str(&mut out, "': ");
    push_str(&mut out, refusal);
    assert(out@ =~= invalid_pattern_text(pattern@, refusal@));
    Error::Parse(from_chars(out.as_slice()))
}

/// Whether one of the first `n` patterns matches `command`.
pub open spec fn any_matches_upto(patterns: Seq<Seq<char>>, command: Seq<char>, n: int) -> bool
    decreases n,
{
    if n <= 0 {
        false
    } else {
        any_matches_upto(patterns, command, n - 1) || regex_matches(patterns[n - 1], command)
            == Some(true)
    }
}

/// The function that stands in for `command`, where it is wrapped: that
/// of its first entry among the aliases.
pub open spec fn replacement_of(aliases: Seq<(Seq<char>, Seq<char>)>, command: Seq<char>) -> Option<
    Seq<char>,
>
    decreases aliases.len(),
{
    if aliases.len() == 0 {
        None
    } else if aliases[0].0 == command {
        Some(aliases[0].1)
    } else {
        replacement_of(aliases.skip(1), command)
    }
}

/// The words of `parts` from index `i` on, each with a space before it.
pub open spec fn spaced_from(parts: Seq<Seq<char>>, i: int) -> Seq<char>
    decreases parts.len() - i,
{
    if i < 0 || i >= parts.len() {
        Seq::empty()
    } else {
        " "@ + parts[i] + spaced_from(parts, i + 1)
    }
}

/// The command line with the function that stands in for its first word
/// in place of it, where that word is wrapped. The other words follow,
/// one space before each.
pub open spec fn command_replacement(
    aliases: Seq<(Seq<char>, Seq<char>)>,
    command: Seq<char>,
) -> Option<Seq<char>> {
    let parts = words(command);
    if parts.len() > 0 && replacement_of(aliases, parts[0]) is Some {
        Some(replacement_of(aliases, parts[0]).unwrap() + spaced_from(parts, 1))
    } else {
        None
    }
}

/// The shell function that wraps `command`.
pub open spec fn wrapper_text(command: Seq<char>) -> Seq<char> {
    WRAPPER_PART_1@ + command + WRAPPER_PART_2@ + command + WRAPPER_PART_3@ + command
        + WRAPPER_PART_4@
}

/// The shell functions that wrap the first `n` commands.
pub open spec fn wrappers_upto(aliases: Seq<(Seq<char>, Seq<char>)>, n: int) -> Seq<char>
    decreases n,
{
    if n <= 0 {
        Seq::empty()
    } else {
        wrappers_upto(aliases, n - 1) + wrapper_text(aliases[n - 1].0)
    }
}

/// The lines that export the first `n` variables.
pub open spec fn exports_upto(variables: Seq<(Seq<char>, Seq<char>)>, n: int) -> Seq<char>
    decreases n,
{
    if n <= 0 {
        Seq::empty()
    } else {
        exports_upto(variables, n - 1) + "export "@ + variables[n - 1].0 + "=\""@ + variables[n
            - 1].1 + "\"\n"@
    }
}

/// The shell code that sets the variables.
pub open spec fn environment_setup(variables: Seq<(Seq<char>, Seq<char>)>) -> Seq<char> {
    "# KlipDot Environment Setup\n"@ + exports_upto(variables, variables.len() as int) + "\n"@
}

/// The shell code that hooks the functions into a shell.
pub open spec fn integration_tail(shell_type: Seq<char>) -> Seq<char> {
    if shell_type == "zsh"@ {
        ZSH_INTEGRATION@
    } else if shell_type == "bash"@ {
        BASH_INTEGRATION@
    } else {
        "# Generic shell integration\n"@
    }
}

/// Whether the content of a start-up file mentions the integration.
pub open spec fn mentions_integration(content: Seq<char>) -> bool {
    contains(content, "klipdot"@) || contains(content, "KlipDot"@)
}

/// Whether the content of a start-up file mentions the integration.
pub fn is_integrated(content: &str) -> (r: bool)
    ensures
        r == mentions_integration(content@),
{
    crate::text::str_contains(content, "klipdot") || crate::text::str_contains(content, "KlipDot")
}

/// The name of the file in which shell code is put to have its syntax
/// checked.
pub fn syntax_check_file_name(shell_type: &str) -> (r: String)
    ensures
        r@ == "klipdot_test."@ + shell_type@,
{
    let mut out: Vec<char> = Vec::new();
    push_str(&mut out, "klipdot_test.");
    push_str(&mut out, shell_type);
    from_chars(out.as_slice())
}

/// What checking the syntax of shell code comes to: the file to put the
/// code in, and the command that checks the file.
#[derive(Debug, Clone)]
pub struct SyntaxCheck {
    pub file: String,
    pub command: crate::image_preview::CommandLine,
}

/// The shell that checks the syntax of code for `shell_type`: `zsh` for
/// ZSH, `bash` for every other. It is run with `-n` and the file.
pub fn syntax_checker(shell_type: &str) -> (r: &'static str)
    ensures
        r@ == (if shell_type@ == "zsh"@ {
            "zsh"@
        } else {
            "bash"@
        }),
{
    if str_eq(shell_type, "zsh") {
        "zsh"
    } else {
        "bash"
    }
}

impl ShellHookManager {
    /// The patterns by which image commands are known.
    pub closed spec fn patterns(&self) -> Seq<Seq<char>> {
        texts(self.patterns@)
    }

    /// The commands that are wrapped.
    pub closed spec fn aliases(&self) -> Seq<(Seq<char>, Seq<char>)> {
        alias_views(self.command_aliases@)
    }

    /// The variables that the shell code sets.
    pub closed spec fn variables(&self) -> Seq<(Seq<char>, Seq<char>)> {
        variable_views(self.environment_vars@)
    }

    /// Whether the manager is well formed: no command is wrapped twice and
    /// no variable set twice.
    pub open spec fn well_formed(&self) -> bool {
        keys_distinct(self.aliases()) && keys_distinct(self.variables())
    }

    /// A manager with the usual patterns, aliases and variables, once the
    /// patterns are known to compile.
    pub fn new() -> (r: Result<Self, Error>)
        ensures
            match r {
                Ok(m) => {
                    &&& pattern_failure_upto(
                        image_command_patterns(),
                        image_command_patterns().len() as int,
                    ) is None
                    &&& m.well_formed()
                    &&& m.patterns() == image_command_patterns()
                    &&& m.aliases() == default_aliases()
                    &&& m.variables() == default_variables()
                },
                Err(e) => e matches Error::Parse(m) && pattern_failure_upto(
                    image_command_patterns(),
                    image_command_patterns().len() as int,
                ) == Some(m@),
            },
    {
        let list = image_command_pattern_list();
        let mut patterns: Vec<String> = Vec::new();
        let mut i: usize = 0;
        while i < list.len()
            invariant
                i <= list.len(),
                slices(list@) == image_command_patterns(),
                patterns@.len() == i,
                forall|j: int| 0 <= j < i ==> patterns@[j]@ == list@[j]@,
                pattern_failure_upto(image_command_patterns(), i as int) is None,
            decreases list.len() - i,
        {
            assert(slices(list@)[i as int] == list@[i as int]@);
            if let Some(refusal) = crate::patterns::refusal(list[i]) {
                proof {
                    lemma_failure_stays(image_command_patterns(), i + 1, list@.len() as int);
                }
                return Err(invalid_pattern(list[i], refusal.as_str()));
            }
            patterns.push(list[i].to_string());
            i += 1;
        }
        assert(texts(patterns@) =~= image_command_patterns());
        let mut command_aliases: Vec<Alias> = Vec::new();
        command_aliases.push(
            Alias { command: "cp".to_string(), replacement: "klipdot_cp".to_string() },
        );
        command_aliases.push(
            Alias { command: "mv".to_string(), replacement: "klipdot_mv".to_string() },
        );
        command_aliases.push(
            Alias { command: "scp".to_string(), replacement: "klipdot_scp".to_string() },
        );
        assert(alias_views(command_aliases@) =~= default_aliases());
        let mut environment_vars: Vec<Variable> = Vec::new();
        environment_vars.push(
            Variable { name: "KLIPDOT_ENABLED".to_string(), value: "1".to_string() },
        );
        environment_vars.push(
            Variable { name: "KLIPDOT_LOG_LEVEL".to_string(), value: "info".to_string() },
        );
        assert(variable_views(environment_vars@) =~= default_variables());
        proof {
            lemma_defaults_are_distinct();
        }
        Ok(ShellHookManager { patterns, command_aliases, environment_vars })
    }

    /// How many patterns the manager knows.
    pub fn pattern_count(&self) -> (r: usize)
        ensures
            r == self.patterns().len(),
    {
        self.patterns.len()
    }

    /// How many commands the manager wraps.
    pub fn alias_count(&self) -> (r: usize)
        ensures
            r == self.aliases().len(),
    {
        self.command_aliases.len()
    }

    /// A manager that knows no pattern, alias or variable.
    pub fn empty() -> (r: Self)
        ensures
            r.well_formed(),
            r.patterns().len() == 0,
            r.aliases().len() == 0,
            r.variables().len() == 0,
    {
        ShellHookManager {
            patterns: Vec::new(),
            command_aliases: Vec::new(),
            environment_vars: Vec::new(),
        }
    }

    /// Whether a command line deals with images: whether one of the
    /// patterns matches it.
    pub fn is_image_command(&self, command: &str) -> (r: bool)
        ensures
            r == any_matches_upto(self.patterns(), command@, self.patterns().len() as int),
    {
        let mut i: usize = 0;
        while i < self.patterns.len()
            invariant
                i <= self.patterns.len(),
                !any_matches_upto(self.patterns(), command@, i as int),
            decreases self.patterns.len() - i,
        {
            assert(self.patterns()[i as int] == self.patterns@[i as int]@);
            if let Some(true) = crate::patterns::matches(self.patterns[i].as_str(), command) {
                proof {
                    lemma_match_stays(
                        self.patterns(),
                        command@,
                        i + 1,
                        self.patterns().len() as int,
                    );
                }
                return true;
            }
            i += 1;
        }
        false
    }

    /// The words of a command line that are paths of image files which
    /// exist now.
    pub fn extract_image_files(&self, command: &str) -> (r: Vec<String>)
        ensures
            exists|present: Seq<bool>|
                present.len() == words(command@).len() && texts(r@) == #[trigger] image_words(
                    words(command@),
                    present,
                    words(command@).len() as int,
                ),
    {
        let chars = to_chars(command);
        let parts = split_whitespace(chars.as_slice());
        let mut paths: Vec<String> = Vec::new();
        let mut i: usize = 0;
        while i < parts.len()
            invariant
                i <= parts.len(),
                paths@.len() == i,
                forall|j: int| 0 <= j < i ==> paths@[j]@ == parts@[j]@,
            decreases parts.len() - i,
        {
            paths.push(from_chars(parts[i].as_slice()));
            i += 1;
        }
        assert(texts(paths@) =~= words(command@));
        let present = crate::stdout_monitor::probe_paths(paths.as_slice());
        select_image_words(paths.as_slice(), present.as_slice())
    }

    /// The command line with the function that stands in for its first
    /// word in place of it.
    pub fn get_command_replacement(&self, command: &str) -> (r: Option<String>)
        ensures
            crate::opt_text(r) == command_replacement(self.aliases(), command@),
    {
        let chars = to_chars(command);
        let parts = split_whitespace(chars.as_slice());
        if parts.len() == 0 {
            return None;
        }
        assert(rows(parts@)[0] == parts@[0]@);
        let first = from_chars(parts[0].as_slice());
        let mut i: usize = 0;
        assert(self.aliases().skip(0) =~= self.aliases());
        while i < self.command_aliases.len()
            invariant
                i <= self.command_aliases.len(),
                first@ == words(command@)[0],
                rows(parts@) == words(command@),
                parts@.len() > 0,
                replacement_of(self.aliases(), first@) == replacement_of(
                    self.aliases().skip(i as int),
                    first@,
                ),
            decreases self.command_aliases.len() - i,
        {
            let ghost rest = self.aliases().skip(i as int);
            assert(rest.len() > 0);
            assert(rest[0] == (
                self.command_aliases@[i as int].command@,
                self.command_aliases@[i as int].replacement@,
            ));
            if str_eq(self.command_aliases[i].command.as_str(), first.as_str()) {
                let mut out: Vec<char> = Vec::new();
                push_str(&mut out, self.command_aliases[i].replacement.as_str());
                let ghost whole = out@ + spaced_from(rows(parts@), 1);
                let mut k: usize = 1;
                while k < parts.len()
                    invariant
                        1 <= k <= parts.len(),
                        out@ + spaced_from(rows(parts@), k as int) == whole,
                    decreases parts.len() - k,
                {
                    let ghost before = out@;
                    out.push(' ');
                    push_chars(&mut out, parts[k].as_slice());
                    proof {
                        reveal_strlit(" ");
                        assert(" "@ =~= seq![' ']);
                        assert(rows(parts@)[k as int] == parts@[k as int]@);
                        assert(out@ + spaced_from(rows(parts@), k + 1) =~= before + spaced_from(
                            rows(parts@),
                            k as int,
                        ));
                    }
                    k += 1;
                }
                assert(out@ + Seq::<char>::empty() =~= out@);
                return Some(from_chars(out.as_slice()));
            }
            assert(rest.skip(1) =~= self.aliases().skip(i + 1));
            i += 1;
        }
        assert(self.aliases().skip(i as int).len() == 0);
        None
    }

    /// Whether a command line is intercepted: whether it deals with images
    /// or names an image file that exists now.
    pub fn should_intercept_command(&self, command: &str) -> (r: bool)
        ensures
            exists|present: Seq<bool>|
                present.len() == words(command@).len() && r == (any_matches_upto(
                    self.patterns(),
                    command@,
                    self.patterns().len() as int,
                ) || (#[trigger] image_words(
                    words(command@),
                    present,
                    words(command@).len() as int,
                )).len() > 0),
    {
        if self.is_image_command(command) {
            proof {
                // Which words exist does not matter once a pattern matches.
                let none = Seq::new(words(command@).len(), |i: int| false);
                let found = image_words(words(command@), none, words(command@).len() as int);
                assert(none.len() == words(command@).len() && (true == (true || found.len() > 0)));
            }
            return true;
        }
        let files = self.extract_image_files(command);
        files.len() > 0
    }

    /// The shell functions that the hooks call.
    pub fn generate_hook_functions(&self) -> (r: String)
        ensures
            r@ == HOOK_FUNCTIONS@,
    {
        HOOK_FUNCTIONS.to_string()
    }

    /// The shell functions that wrap the commands.
    pub fn generate_command_wrappers(&self) -> (r: String)
        ensures
            r@ == wrappers_upto(self.aliases(), self.aliases().len() as int),
    {
        let mut out: Vec<char> = Vec::new();
        let mut i: usize = 0;
        while i < self.command_aliases.len()
            invariant
                i <= self.command_aliases.len(),
                out@ == wrappers_upto(self.aliases(), i as int),
            decreases self.command_aliases.len() - i,
        {
            let ghost before = out@;
            let command = self.command_aliases[i].command.as_str();
            assert(self.aliases()[i as int].0 == command@);
            push_str(&mut out, WRAPPER_PART_1);
            push_str(&mut out, command);
            push_str(&mut out, WRAPPER_PART_2);
            push_str(&mut out, command);
            push_str(&mut out, WRAPPER_PART_3);
            push_str(&mut out, command);
            push_str(&mut out, WRAPPER_PART_4);
            assert(out@ =~= before + wrapper_text(command@));
            i += 1;
        }
        from_chars(out.as_slice())
    }

    /// The shell code that sets the variables.
    pub fn generate_environment_setup(&self) -> (r: String)
        ensures
            r@ == environment_setup(self.variables()),
    {
        let mut out: Vec<char> = Vec::new();
        push_str(&mut out, "# KlipDot Environment Setup\n");
        let ghost head = out@;
        let mut i: usize = 0;
        assert(out@ =~= head + exports_upto(self.variables(), 0));
        while i < self.environment_vars.len()
            invariant
                i <= self.environment_vars.len(),
                out@ == head + exports_upto(self.variables(), i as int),
            decreases self.environment_vars.len() - i,
        {
            let ghost before = out@;
            let v = &self.environment_vars[i];
            assert(self.variables()[i as int] == (v.name@, v.value@));
            push_str(&mut out, "export ");
            push_str(&mut out, v.name.as_str());
            push_str(&mut out, "=\"");
            push_str(&mut out, v.value.as_str());
            push_str(&mut out, "\"\n");
            assert(out@ =~= head + (exports_upto(self.variables(), i as int) + "export "@ + v.name@
                + "=\""@ + v.value@ + "\"\n"@));
            i += 1;
        }
        push_str(&mut out, "\n");
        assert(out@ =~= environment_setup(self.variables()));
        from_chars(out.as_slice())
    }

    /// The whole shell code for a shell: variables, functions, wrappers
    /// and what hooks them into the shell.
    pub fn generate_shell_integration(&self, shell_type: &str) -> (r: String)
        ensures
            r@ == environment_setup(self.variables()) + HOOK_FUNCTIONS@ + wrappers_upto(
                self.aliases(),
                self.aliases().len() as int,
            ) + integration_tail(shell_type@),
    {
        let mut out: Vec<char> = Vec::new();
        push_str(&mut out, self.generate_environment_setup().as_str());
        push_str(&mut out, self.generate_hook_functions().as_str());
        push_str(&mut out, self.generate_command_wrappers().as_str());
        if str_eq(shell_type, "zsh") {
            push_str(&mut out, ZSH_INTEGRATION);
        } else if str_eq(shell_type, "bash") {
            push_str(&mut out, BASH_INTEGRATION);
        } else {
            push_str(&mut out, "# Generic shell integration\n");
        }
        assert(out@ =~= environment_setup(self.variables()) + HOOK_FUNCTIONS@ + wrappers_upto(
            self.aliases(),
            self.aliases().len() as int,
        ) + integration_tail(shell_type@));
        from_chars(out.as_slice())
    }

    /// Says how the syntax of code for `shell_type` is checked: the code is
    /// put in a file in `temp_dir` and the shell is run on it with `-n`.
    pub fn validate_shell_syntax(&self, shell_type: &str, temp_dir: &str) -> (r: SyntaxCheck)
        ensures
            r.file@ == crate::paths::joined(temp_dir@, "klipdot_test."@ + shell_type@),
            r.command@ == ((if shell_type@ == "zsh"@ {
                "zsh"@
            } else {
                "bash"@
            }), seq!["-n"@, r.file@]),
    {
        let name = syntax_check_file_name(shell_type);
        let file = crate::paths::join(temp_dir, name.as_str());
        let mut args: Vec<String> = Vec::new();
        crate::image_preview::push_text(&mut args, "-n");
        crate::image_preview::push_text(&mut args, file.as_str());
        assert(texts(args@) =~= seq!["-n"@, file@]);
        SyntaxCheck {
            file,
            command: crate::image_preview::CommandLine {
                program: syntax_checker(shell_type).to_string(),
                args,
            },
        }
    }

    /// Puts together what is known about the installation of the hooks,
    /// given the content of the two start-up files where they exist.
    pub fn get_hook_status(
        &self,
        binary_available: bool,
        hooks_installed: bool,
        bashrc: Option<&str>,
        zshrc: Option<&str>,
    ) -> (r: HookStatus)
        ensures
            r.binary_available == binary_available,
            r.hooks_installed == hooks_installed,
            r.bash_integrated == (bashrc matches Some(c) && mentions_integration(c@)),
            r.zsh_integrated == (zshrc matches Some(c) && mentions_integration(c@)),
    {
        HookStatus {
            binary_available,
            hooks_installed,
            bash_integrated: match bashrc {
                Some(c) => is_integrated(c),
                None => false,
            },
            zsh_integrated: match zshrc {
                Some(c) => is_integrated(c),
                None => false,
            },
        }
    }
}

impl Default for ShellHookManager {
    /// The usual manager, or one that knows nothing where the patterns do
    /// not compile.
    fn default() -> (r: Self)
        ensures
            r.well_formed(),
            pattern_failure_upto(image_command_patterns(), image_command_patterns().len() as int)
                is None ==> r.patterns() == image_command_patterns() && r.aliases()
                == default_aliases() && r.variables() == default_variables(),
            pattern_failure_upto(image_command_patterns(), image_command_patterns().len() as int)
                is Some ==> r.patterns().len() == 0 && r.aliases().len() == 0
                && r.variables().len() == 0,
    {
        match ShellHookManager::new() {
            Ok(m) => m,
            Err(_) => ShellHookManager::empty(),
        }
    }
}

/// The words among the first `n` that are marked present and have an
/// image extension. A word without a mark counts as not present.
pub open spec fn image_words(parts: Seq<Seq<char>>, present: Seq<bool>, n: int) -> Seq<Seq<char>>
    decreases n,
{
    if n <= 0 {
        Seq::empty()
    } else {
        let rest = image_words(parts, present, n - 1);
        if n - 1 < present.len() && present[n - 1] && crate::paths::has_extension_in(
            parts[n - 1],
            crate::supported_formats(),
        ) {
            rest.push(parts[n - 1])
        } else {
            rest
        }
    }
}

/// Keeps the words that are marked present and have an image extension.
pub fn select_image_words(parts: &[String], present: &[bool]) -> (r: Vec<String>)
    ensures
        texts(r@) == image_words(texts(parts@), present@, parts@.len() as int),
{
    let mut r: Vec<String> = Vec::new();
    let mut i: usize = 0;
    assert(texts(r@) =~= Seq::<Seq<char>>::empty());
    while i < parts.len()
        invariant
            i <= parts.len(),
            texts(r@) == image_words(texts(parts@), present@, i as int),
        decreases parts.len() - i,
    {
        let ghost before = texts(r@);
        if i < present.len() && present[i] && crate::is_image_file(parts[i].as_str()) {
            r.push(parts[i].clone());
            assert(texts(r@) =~= before.push(texts(parts@)[i as int]));
        }
        i += 1;
    }
    r
}

/// Once a pattern is found that does not compile, the failure is that one
/// whatever follows.
proof fn lemma_failure_stays(patterns: Seq<Seq<char>>, n: int, m: int)
    requires
        0 <= n <= m,
        pattern_failure_upto(patterns, n) is Some,
    ensures
        pattern_failure_upto(patterns, m) == pattern_failure_upto(patterns, n),
    decreases m - n,
{
    if n < m {
        lemma_failure_stays(patterns, n, m - 1);
    }
}

/// Once a pattern matches, some pattern matches whatever follows.
proof fn lemma_match_stays(patterns: Seq<Seq<char>>, command: Seq<char>, n: int, m: int)
    requires
        0 <= n <= m,
        any_matches_upto(patterns, command, n),
    ensures
        any_matches_upto(patterns, command, m),
    decreases m - n,
{
    if n < m {
        lemma_match_stays(patterns, command, n, m - 1);
    }
}

} // verus!
