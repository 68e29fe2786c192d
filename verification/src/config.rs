//! Configuration module
//!
//! Holds the configuration and the rules by which configuration layers combine.
//!
//! Configuration is layered in the following priority order (highest to lowest):
//! 1. CLI arguments (handled by caller)
//! 2. Project config (.demoji.toml in project root or parent directories)
//! 3. Global config (~/.config/demoji/config.toml or ~/.demoji.toml)
//! 4. Default values
use vstd::prelude::*;

use crate::engine::replacer::{default_placeholder_text, ReplacementMode};
use crate::engine::text::texts;
use crate::engine::walker::{default_ignore_list, DirectoryWalker};

verus! {

broadcast use vstd::string::group_string_axioms;

/// Configuration for demoji
#[derive(Debug, Clone)]
pub struct Config {
    /// Replacement mode (remove, replace, or placeholder)
    pub mode: ReplacementMode,
    /// Custom placeholder string (used when mode is Placeholder)
    pub placeholder: String,
    /// File extensions to process (e.g., `["rs", "py", "js"]`)
    /// If empty, processes all text files
    pub extensions: Vec<String>,
    /// Additional patterns to ignore (beyond .gitignore)
    pub ignore_patterns: Vec<String>,
    /// Whether to create backups before modifying files
    pub backup: bool,
    /// Default dry-run behavior (preview changes without writing)
    pub dry_run: bool,
}

/// A configuration, by the values it holds.
pub struct ConfigView {
    pub mode: ReplacementMode,
    pub placeholder: Seq<char>,
    pub extensions: Seq<Seq<char>>,
    pub ignore_patterns: Seq<Seq<char>>,
    pub backup: bool,
    pub dry_run: bool,
}

impl View for Config {
    type V = ConfigView;

    open spec fn view(&self) -> ConfigView {
        ConfigView {
            mode: self.mode,
            placeholder: self.placeholder@,
            extensions: texts(self.extensions@),
            ignore_patterns: texts(self.ignore_patterns@),
            backup: self.backup,
            dry_run: self.dry_run,
        }
    }
}

/// The default configuration.
pub open spec fn default_config() -> ConfigView {
    ConfigView {
        mode: ReplacementMode::Smart,
        placeholder: default_placeholder_text(),
        extensions: Seq::empty(),
        ignore_patterns: default_ignore_list(),
        backup: false,
        dry_run: false,
    }
}

/// `base` overridden by `over`: the mode and flags of `over`; its placeholder unless it is
/// the default one and `base` has another; its extensions unless it names none; and the
/// ignore patterns of both, those of `base` first.
pub open spec fn merged(base: ConfigView, over: ConfigView) -> ConfigView {
    ConfigView {
        mode: over.mode,
        placeholder: if over.placeholder == default_placeholder_text() && base.placeholder
            != default_placeholder_text() {
            base.placeholder
        } else {
            over.placeholder
        },
        extensions: if over.extensions.len() == 0 {
            base.extensions
        } else {
            over.extensions
        },
        ignore_patterns: base.ignore_patterns + over.ignore_patterns,
        backup: over.backup,
        dry_run: over.dry_run,
    }
}

/// The configuration that the defaults, then a global configuration, then a project
/// configuration give, each layer overriding the ones before it.
pub open spec fn layered(global: Option<ConfigView>, project: Option<ConfigView>) -> ConfigView {
    let with_global = match global {
        Some(g) => merged(default_config(), g),
        None => default_config(),
    };
    match project {
        Some(p) => merged(with_global, p),
        None => with_global,
    }
}

/// The view of an optional configuration.
pub open spec fn option_config(c: Option<Config>) -> Option<ConfigView> {
    match c {
        Some(c) => Some(c@),
        None => None,
    }
}

/// The text of the `.demoji.toml` template that `demoji init` writes.
pub open spec fn template_text() -> Seq<char> {
    "# demoji configuration file
# See https://github.com/dbmrq/demoji for documentation

# Replacement mode: \"smart\", \"remove\", \"replace\", or \"placeholder\"
# - smart: Replace functional emojis with ASCII, remove decorative ones (default)
# - remove: Delete all emoji characters entirely
# - replace: Use ASCII alternatives for all mapped emojis
# - placeholder: Replace with custom placeholder string
mode = \"smart\"

# Custom placeholder string (only used when mode = \"placeholder\")
placeholder = \"[EMOJI]\"

# File extensions to process (empty = all text files)
# Example: extensions = [\"rs\", \"py\", \"js\", \"ts\", \"go\"]
extensions = []

# Additional patterns to ignore (beyond .gitignore)
# Example: ignore_patterns = [\"*.generated.rs\", \"vendor/\"]
ignore_patterns = []

# Create .bak files before modifying
backup = false

# Preview changes without writing (dry-run mode)
dry_run = false
"@
}

/// The placeholder used when none is configured.
fn default_placeholder() -> (s: String)
    ensures
        s@ == default_placeholder_text(),
{
    "[EMOJI]".to_string()
}

impl Default for Config {
    fn default() -> (c: Self)
        ensures
            c@ == default_config(),
    {
        let c = Self {
            mode: ReplacementMode::Smart,
            placeholder: default_placeholder(),
            extensions: Vec::new(),
            ignore_patterns: DirectoryWalker::default_ignore_patterns(),
            backup: false,
            dry_run: false,
        };
        proof {
            assert(texts(c.extensions@) =~= Seq::<Seq<char>>::empty());
        }
        c
    }
}

impl Config {
    /// Creates a new config with default values
    pub fn new() -> (c: Self)
        ensures
            c@ == default_config(),
    {
        Self::default()
    }

    /// Combines the configuration layers that were found: the defaults, overridden by the
    /// global configuration when there is one, overridden by the project configuration
    /// when there is one.
    pub fn from_layers(global: Option<Config>, project: Option<Config>) -> (c: Self)
        ensures
            c@ == layered(option_config(global), option_config(project)),
    {
        let mut config = Self::default();
        if let Some(global_config) = global {
            config = config.merge(global_config);
        }
        if let Some(project_config) = project {
            config = config.merge(project_config);
        }
        config
    }

    /// Merges this config with another, preferring values from `other`
    ///
    /// This is used to implement the priority chain:
    /// defaults -> global config -> project config -> CLI args
    pub fn merge(self, other: Self) -> (c: Self)
        ensures
            c@ == merged(self@, other@),
    {
        let placeholder = if other.placeholder == default_placeholder() && self.placeholder
            != default_placeholder() {
            self.placeholder
        } else {
            other.placeholder
        };
        let extensions = if other.extensions.len() == 0 {
            self.extensions
        } else {
            other.extensions
        };
        let mut ignore_patterns = self.ignore_patterns;
        let mut more = other.ignore_patterns;
        let ghost before = ignore_patterns@;
        let ghost added = more@;
        ignore_patterns.append(&mut more);
        proof {
            assert(texts(ignore_patterns@) =~= texts(before) + texts(added));
        }
        Self {
            mode: other.mode,
            placeholder,
            extensions,
            ignore_patterns,
            backup: other.backup,
            dry_run: other.dry_run,
        }
    }

    /// Generates a default `.demoji.toml` template with comments
    pub fn generate_template() -> (s: String)
        ensures
            s@ == template_text(),
    {
        "# demoji configuration file
# See https://github.com/dbmrq/demoji for documentation

# Replacement mode: \"smart\", \"remove\", \"replace\", or \"placeholder\"
# - smart: Replace functional emojis with ASCII, remove decorative ones (default)
# - remove: Delete all emoji characters entirely
# - replace: Use ASCII alternatives for all mapped emojis
# - placeholder: Replace with custom placeholder string
mode = \"smart\"

# Custom placeholder string (only used when mode = \"placeholder\")
placeholder = \"[EMOJI]\"

# File extensions to process (empty = all text files)
# Example: extensions = [\"rs\", \"py\", \"js\", \"ts\", \"go\"]
extensions = []

# Additional patterns to ignore (beyond .gitignore)
# Example: ignore_patterns = [\"*.generated.rs\", \"vendor/\"]
ignore_patterns = []

# Create .bak files before modifying
backup = false

# Preview changes without writing (dry-run mode)
dry_run = false
".to_string()
    }
}

/// Merging is associative: combining three layers gives the same configuration whichever
/// two are combined first, so the priority chain is well defined.
pub proof fn lemma_merge_associative(a: ConfigView, b: ConfigView, c: ConfigView)
    ensures
        merged(merged(a, b), c) == merged(a, merged(b, c)),
{
    assert(merged(merged(a, b), c).ignore_patterns =~= merged(a, merged(b, c)).ignore_patterns);
}

/// The layer merged over another decides the mode and the backup and dry-run flags,
/// whatever the layer below says: a project configuration that says `smart` overrides a
/// global one that says `remove`.
pub proof fn lemma_merge_takes_over_mode_and_flags(base: ConfigView, over: ConfigView)
    ensures
        merged(base, over).mode == over.mode,
        merged(base, over).backup == over.backup,
        merged(base, over).dry_run == over.dry_run,
        over.extensions.len() > 0 ==> merged(base, over).extensions == over.extensions,
        over.placeholder != default_placeholder_text() ==> merged(base, over).placeholder
            == over.placeholder,
{
}

/// The project configuration, when there is one, decides the mode and flags; otherwise the
/// global configuration does; otherwise the defaults do.
pub proof fn lemma_project_layer_prevails(global: Option<ConfigView>, project: Option<ConfigView>)
    ensures
        project matches Some(p) ==> layered(global, project).mode == p.mode
            && layered(global, project).backup == p.backup && layered(global, project).dry_run
            == p.dry_run,
        project is None ==> (global matches Some(g) ==> layered(global, project).mode == g.mode),
        project is None && global is None ==> layered(global, project) == default_config(),
{
}

/// Merging keeps every ignore pattern of both layers, in order.
pub proof fn lemma_merge_keeps_patterns(a: ConfigView, b: ConfigView)
    ensures
        merged(a, b).ignore_patterns.len() == a.ignore_patterns.len() + b.ignore_patterns.len(),
        forall|i: int|
            0 <= i < a.ignore_patterns.len() ==> merged(a, b).ignore_patterns[i]
                == a.ignore_patterns[i],
        forall|i: int|
            0 <= i < b.ignore_patterns.len() ==> merged(a, b).ignore_patterns[a.ignore_patterns.len()
                + i] == b.ignore_patterns[i],
{
}

/// The global configuration file that is read.
#[derive(Debug, Clone, Copy, PartialEq, Eq, Structural)]
pub enum GlobalConfigFile {
    /// `~/.config/demoji/config.toml`, the XDG location
    Xdg,
    /// `~/.demoji.toml`
    Legacy,
}

/// Which global configuration file is read, given which of the two exist: the XDG
/// location first, then `~/.demoji.toml`; none when neither exists.
pub fn global_config_choice(xdg_exists: bool, legacy_exists: bool) -> (r: Option<GlobalConfigFile>)
    ensures
        r == (if xdg_exists {
            Some(GlobalConfigFile::Xdg)
        } else if legacy_exists {
            Some(GlobalConfigFile::Legacy)
        } else {
            None
        }),
{
    if xdg_exists {
        Some(GlobalConfigFile::Xdg)
    } else if legacy_exists {
        Some(GlobalConfigFile::Legacy)
    } else {
        None
    }
}

/// What the search for a project configuration does in a directory.
#[derive(Debug, Clone, Copy, PartialEq, Eq, Structural)]
pub enum SearchStep {
    /// Read the `.demoji.toml` found here.
    Load,
    /// Look in the parent directory.
    Ascend,
    /// Stop: no project configuration.
    Stop,
}

/// The search for a project configuration, in a directory where `.demoji.toml` exists or
/// not and which has a parent or not: the nearest file wins, and the search goes up to the
/// file system's root.
pub fn project_search_step(found: bool, has_parent: bool) -> (r: SearchStep)
    ensures
        r == (if found {
            SearchStep::Load
        } else if has_parent {
            SearchStep::Ascend
        } else {
            SearchStep::Stop
        }),
{
    if found {
        SearchStep::Load
    } else if has_parent {
        SearchStep::Ascend
    } else {
        SearchStep::Stop
    }
}

} // verus!
