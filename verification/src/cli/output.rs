//! Output formatting and reporting
//!
//! A reporter turns the events of processing into styled text, which the program prints.
use vstd::prelude::*;

use crate::engine::text::{decimal, joined, push_decimal};

verus! {

broadcast use vstd::string::group_string_axioms;

/// Verbosity level for output
#[derive(Debug, Clone, Copy, PartialEq, Eq, Structural)]
pub enum VerbosityLevel {
    /// Minimal output (only errors and summary)
    Quiet,
    /// Normal output (files and summary)
    Normal,
    /// Detailed output (all matches and details)
    Verbose,
}

/// How a piece of output text is shown on a terminal.
#[derive(Debug, Clone, Copy, PartialEq, Eq, Structural)]
pub enum Style {
    /// Shown as it is
    Plain,
    /// Cyan
    Cyan,
    /// Yellow
    Yellow,
    /// Red
    Red,
    /// Green
    Green,
    /// Bold
    Bold,
    /// Dimmed
    Dimmed,
}

/// A piece of output text with its style.
#[derive(Debug, Clone)]
pub struct StyledText {
    /// The text
    pub text: String,
    /// How it is shown
    pub style: Style,
}

/// Pieces of output, by their text and style.
pub open spec fn pieces(v: Seq<StyledText>) -> Seq<(Seq<char>, Style)> {
    v.map_values(|t: StyledText| (t.text@, t.style))
}

/// What a reporter of the given verbosity shows when a file starts.
pub open spec fn file_output(verbosity: VerbosityLevel, path: Seq<char>, count: nat) -> Seq<
    (Seq<char>, Style),
> {
    match verbosity {
        VerbosityLevel::Quiet => seq![],
        VerbosityLevel::Normal => seq![
            ("Processing:"@, Style::Cyan),
            (" "@ + path + " ["@ + decimal(count) + "]\n"@, Style::Plain),
        ],
        VerbosityLevel::Verbose => seq![
            ("\n"@, Style::Plain),
            ("→"@, Style::Cyan),
            (" "@, Style::Plain),
            (path, Style::Bold),
            (" [File "@ + decimal(count) + "]\n"@, Style::Plain),
        ],
    }
}

/// What a reporter of the given verbosity shows for one emoji.
pub open spec fn match_output(
    verbosity: VerbosityLevel,
    line: nat,
    column: nat,
    emoji: Seq<char>,
    context: Seq<char>,
) -> Seq<(Seq<char>, Style)> {
    if verbosity == VerbosityLevel::Verbose {
        seq![
            ("  "@, Style::Plain),
            ("●"@, Style::Yellow),
            (" "@ + emoji + " at line "@ + decimal(line) + ", column "@ + decimal(column) + " "@,
            Style::Plain),
            ("("@ + context + ")"@, Style::Dimmed),
            ("\n"@, Style::Plain),
        ]
    } else {
        seq![]
    }
}

/// What a reporter of the given verbosity shows at the end.
pub open spec fn summary_output(
    verbosity: VerbosityLevel,
    total_files: nat,
    files_with_emojis: nat,
    total_emojis: nat,
) -> Seq<(Seq<char>, Style)> {
    if verbosity == VerbosityLevel::Quiet {
        seq![]
    } else {
        let heading = if verbosity == VerbosityLevel::Verbose {
            seq![
                ("\n"@, Style::Plain),
                ("╔════════════════════════════════════╗"@, Style::Cyan),
                ("\n"@, Style::Plain),
                ("║         PROCESSING COMPLETE         ║"@, Style::Cyan),
                ("\n"@, Style::Plain),
                ("╚════════════════════════════════════╝"@, Style::Cyan),
                ("\n"@, Style::Plain),
                ("\n"@, Style::Plain),
            ]
        } else {
            seq![("\n"@, Style::Plain), ("=== Summary ==="@, Style::Bold), ("\n"@, Style::Plain)]
        };
        let counts = if total_emojis == 0 {
            seq![
                ("✓"@, Style::Green),
                (" "@ + decimal(total_files) + " files processed, no emojis found\n"@,
                Style::Plain),
            ]
        } else {
            seq![
                ("Files:"@, Style::Cyan),
                (" "@ + decimal(total_files) + " files processed\n"@, Style::Plain),
                ("Affected:"@, Style::Yellow),
                (" "@ + decimal(files_with_emojis) + " files with emojis\n"@, Style::Plain),
                ("Emojis:"@, Style::Red),
                (" "@ + decimal(total_emojis) + " emojis found\n"@, Style::Plain),
            ]
        };
        heading + counts
    }
}

/// Trait for reporting processing results
pub trait Reporter {
    /// Whether one more match can be counted.
    spec fn can_count_match(&self) -> bool;

    /// Report the start of processing a file
    fn report_file(&mut self, file_path: &str, file_count: usize);

    /// Report a single emoji match found in a file
    fn report_match(&mut self, line: usize, column: usize, emoji: &str, context: &str)
        requires
            old(self).can_count_match(),
    ;

    /// Report the final summary of processing
    fn report_summary(&mut self, total_files: usize, files_with_emojis: usize, total_emojis: usize);
}

/// Console reporter; what it reports waits in `output` until the program prints it.
pub struct ConsoleReporter {
    /// How much is reported
    pub verbosity: VerbosityLevel,
    /// The file being processed
    pub current_file: Option<String>,
    /// How many emojis were found in the current file
    pub current_file_emojis: usize,
    /// The styled text reported and not yet printed
    pub output: Vec<StyledText>,
}

/// Appends `text` in `style` to `out`.
fn emit(out: &mut Vec<StyledText>, text: String, style: Style)
    ensures
        pieces(final(out)@) == pieces(old(out)@).push((text@, style)),
{
    out.push(StyledText { text, style });
    assert(pieces(out@) =~= pieces(old(out)@).push((text@, style)));
}

/// `prefix`, the decimal notation of `n`, then `suffix`.
fn with_number(prefix: &str, n: usize, suffix: &str) -> (s: String)
    ensures
        s@ == prefix@ + decimal(n as nat) + suffix@,
{
    let mut s = prefix.to_string();
    push_decimal(&mut s, n);
    s.append(suffix);
    s
}

impl ConsoleReporter {
    /// Creates a new console reporter with the specified verbosity level
    pub fn new(verbosity: VerbosityLevel) -> (r: Self)
        ensures
            r.verbosity == verbosity,
            r.current_file is None,
            r.current_file_emojis == 0,
            r.output@.len() == 0,
    {
        Self { verbosity, current_file: None, current_file_emojis: 0, output: Vec::new() }
    }

    /// Creates a console reporter with normal verbosity
    pub fn normal() -> (r: Self)
        ensures
            r.verbosity == VerbosityLevel::Normal,
            r.current_file is None,
            r.current_file_emojis == 0,
            r.output@.len() == 0,
    {
        Self::new(VerbosityLevel::Normal)
    }

    /// Creates a console reporter with quiet mode
    pub fn quiet() -> (r: Self)
        ensures
            r.verbosity == VerbosityLevel::Quiet,
            r.current_file is None,
            r.current_file_emojis == 0,
            r.output@.len() == 0,
    {
        Self::new(VerbosityLevel::Quiet)
    }

    /// Creates a console reporter with verbose mode
    pub fn verbose() -> (r: Self)
        ensures
            r.verbosity == VerbosityLevel::Verbose,
            r.current_file is None,
            r.current_file_emojis == 0,
            r.output@.len() == 0,
    {
        Self::new(VerbosityLevel::Verbose)
    }

    /// Hands over the text reported so far, leaving none waiting.
    pub fn take_output(&mut self) -> (out: Vec<StyledText>)
        ensures
            out@ == old(self).output@,
            final(self).output@.len() == 0,
            final(self).verbosity == old(self).verbosity,
            final(self).current_file == old(self).current_file,
            final(self).current_file_emojis == old(self).current_file_emojis,
    {
        let mut out: Vec<StyledText> = Vec::new();
        std::mem::swap(&mut out, &mut self.output);
        out
    }
}

impl Reporter for ConsoleReporter {
    open spec fn can_count_match(&self) -> bool {
        self.current_file_emojis < usize::MAX
    }

    fn report_file(&mut self, file_path: &str, file_count: usize)
        ensures
            final(self).current_file matches Some(f) && f@ == file_path@,
            final(self).current_file_emojis == 0,
            final(self).verbosity == old(self).verbosity,
            pieces(final(self).output@) == pieces(old(self).output@) + file_output(
                old(self).verbosity,
                file_path@,
                file_count as nat,
            ),
    {
        self.current_file = Some(file_path.to_string());
        self.current_file_emojis = 0;
        let ghost before = pieces(self.output@);
        match self.verbosity {
            VerbosityLevel::Quiet => {
                assert(pieces(self.output@) =~= before + file_output(
                    self.verbosity,
                    file_path@,
                    file_count as nat,
                ));
            },
            VerbosityLevel::Normal => {
                emit(&mut self.output, "Processing:".to_string(), Style::Cyan);
                let mut rest = joined(" ", file_path);
                let tail = with_number(" [", file_count, "]\n");
                rest.append(tail.as_str());
                assert(rest@ =~= " "@ + file_path@ + " ["@ + decimal(file_count as nat) + "]\n"@);
                emit(&mut self.output, rest, Style::Plain);
                assert(pieces(self.output@) =~= before + file_output(
                    self.verbosity,
                    file_path@,
                    file_count as nat,
                ));
            },
            VerbosityLevel::Verbose => {
                emit(&mut self.output, "\n".to_string(), Style::Plain);
                emit(&mut self.output, "→".to_string(), Style::Cyan);
                emit(&mut self.output, " ".to_string(), Style::Plain);
                emit(&mut self.output, file_path.to_string(), Style::Bold);
                emit(&mut self.output, with_number(" [File ", file_count, "]\n"), Style::Plain);
                assert(pieces(self.output@) =~= before + file_output(
                    self.verbosity,
                    file_path@,
                    file_count as nat,
                ));
            },
        }
    }

    fn report_match(&mut self, line: usize, column: usize, emoji: &str, context: &str)
        ensures
            final(self).current_file_emojis == old(self).current_file_emojis + 1,
            final(self).current_file == old(self).current_file,
            final(self).verbosity == old(self).verbosity,
            pieces(final(self).output@) == pieces(old(self).output@) + match_output(
                old(self).verbosity,
                line as nat,
                column as nat,
                emoji@,
                context@,
            ),
    {
        self.current_file_emojis = self.current_file_emojis + 1;
        let ghost before = pieces(self.output@);
        if self.verbosity == VerbosityLevel::Verbose {
            emit(&mut self.output, "  ".to_string(), Style::Plain);
            emit(&mut self.output, "●".to_string(), Style::Yellow);
            let mut text = joined(" ", emoji);
            text.append(" at line ");
            push_decimal(&mut text, line);
            text.append(", column ");
            push_decimal(&mut text, column);
            text.append(" ");
            assert(text@ =~= " "@ + emoji@ + " at line "@ + decimal(line as nat) + ", column "@
                + decimal(column as nat) + " "@);
            emit(&mut self.output, text, Style::Plain);
            let mut note = joined("(", context);
            note.append(")");
            emit(&mut self.output, note, Style::Dimmed);
            emit(&mut self.output, "\n".to_string(), Style::Plain);
        }
        assert(pieces(self.output@) =~= before + match_output(
            self.verbosity,
            line as nat,
            column as nat,
            emoji@,
            context@,
        ));
    }

    fn report_summary(&mut self, total_files: usize, files_with_emojis: usize, total_emojis: usize)
        ensures
            final(self).current_file_emojis == old(self).current_file_emojis,
            final(self).current_file == old(self).current_file,
            final(self).verbosity == old(self).verbosity,
            pieces(final(self).output@) == pieces(old(self).output@) + summary_output(
                old(self).verbosity,
                total_files as nat,
                files_with_emojis as nat,
                total_emojis as nat,
            ),
    {
        let ghost before = pieces(self.output@);
        if self.verbosity == VerbosityLevel::Quiet {
            assert(pieces(self.output@) =~= before + summary_output(
                self.verbosity,
                total_files as nat,
                files_with_emojis as nat,
                total_emojis as nat,
            ));
            return ;
        }
        emit(&mut self.output, "\n".to_string(), Style::Plain);
        if self.verbosity == VerbosityLevel::Verbose {
            emit(&mut self.output, "╔════════════════════════════════════╗".to_string(), Style::Cyan);
            emit(&mut self.output, "\n".to_string(), Style::Plain);
            emit(&mut self.output, "║         PROCESSING COMPLETE         ║".to_string(), Style::Cyan);
            emit(&mut self.output, "\n".to_string(), Style::Plain);
            emit(&mut self.output, "╚════════════════════════════════════╝".to_string(), Style::Cyan);
            emit(&mut self.output, "\n".to_string(), Style::Plain);
            emit(&mut self.output, "\n".to_string(), Style::Plain);
        } else {
            emit(&mut self.output, "=== Summary ===".to_string(), Style::Bold);
            emit(&mut self.output, "\n".to_string(), Style::Plain);
        }
        if total_emojis == 0 {
            emit(&mut self.output, "✓".to_string(), Style::Green);
            emit(
                &mut self.output,
                with_number(" ", total_files, " files processed, no emojis found\n"),
                Style::Plain,
            );
        } else {
            emit(&mut self.output, "Files:".to_string(), Style::Cyan);
            emit(&mut self.output, with_number(" ", total_files, " files processed\n"), Style::Plain);
            emit(&mut self.output, "Affected:".to_string(), Style::Yellow);
            emit(
                &mut self.output,
                with_number(" ", files_with_emojis, " files with emojis\n"),
                Style::Plain,
            );
            emit(&mut self.output, "Emojis:".to_string(), Style::Red);
            emit(&mut self.output, with_number(" ", total_emojis, " emojis found\n"), Style::Plain);
        }
        assert(pieces(self.output@) =~= before + summary_output(
            self.verbosity,
            total_files as nat,
            files_with_emojis as nat,
            total_emojis as nat,
        ));
    }
}

/// Helper function to create a reporter based on verbosity level
pub fn create_reporter(verbosity: VerbosityLevel) -> (r: ConsoleReporter)
    ensures
        r.verbosity == verbosity,
        r.current_file is None,
        r.current_file_emojis == 0,
        r.output@.len() == 0,
{
    ConsoleReporter::new(verbosity)
}

/// A quiet reporter shows nothing, whatever it is told.
pub proof fn lemma_quiet_shows_nothing(
    path: Seq<char>,
    count: nat,
    line: nat,
    column: nat,
    emoji: Seq<char>,
    context: Seq<char>,
    total_files: nat,
    files_with_emojis: nat,
    total_emojis: nat,
)
    ensures
        file_output(VerbosityLevel::Quiet, path, count).len() == 0,
        match_output(VerbosityLevel::Quiet, line, column, emoji, context).len() == 0,
        summary_output(VerbosityLevel::Quiet, total_files, files_with_emojis, total_emojis).len()
            == 0,
{
}

/// The summary ends with the counts, each with its own label: with emojis found, the
/// number of files processed after `Files:`, the number of files with emojis after
/// `Affected:` and the number of emojis after `Emojis:`; without, the number of files
/// processed and that no emojis were found.
pub proof fn lemma_summary_counts_in_place(
    verbosity: VerbosityLevel,
    total_files: nat,
    files_with_emojis: nat,
    total_emojis: nat,
)
    requires
        verbosity != VerbosityLevel::Quiet,
    ensures
        ({
            let o = summary_output(verbosity, total_files, files_with_emojis, total_emojis);
            total_emojis > 0 ==> o.len() >= 6 && o.subrange(o.len() - 6, o.len() as int) == seq![
                ("Files:"@, Style::Cyan),
                (" "@ + decimal(total_files) + " files processed\n"@, Style::Plain),
                ("Affected:"@, Style::Yellow),
                (" "@ + decimal(files_with_emojis) + " files with emojis\n"@, Style::Plain),
                ("Emojis:"@, Style::Red),
                (" "@ + decimal(total_emojis) + " emojis found\n"@, Style::Plain),
            ]
        }),
        ({
            let o = summary_output(verbosity, total_files, files_with_emojis, total_emojis);
            total_emojis == 0 ==> o.len() >= 2 && o.subrange(o.len() - 2, o.len() as int) == seq![
                ("✓"@, Style::Green),
                (" "@ + decimal(total_files) + " files processed, no emojis found\n"@, Style::Plain),
            ]
        }),
{
    let o = summary_output(verbosity, total_files, files_with_emojis, total_emojis);
    if total_emojis > 0 {
        assert(o.subrange(o.len() - 6, o.len() as int) =~= seq![
            ("Files:"@, Style::Cyan),
            (" "@ + decimal(total_files) + " files processed\n"@, Style::Plain),
            ("Affected:"@, Style::Yellow),
            (" "@ + decimal(files_with_emojis) + " files with emojis\n"@, Style::Plain),
            ("Emojis:"@, Style::Red),
            (" "@ + decimal(total_emojis) + " emojis found\n"@, Style::Plain),
        ]);
    } else {
        assert(o.subrange(o.len() - 2, o.len() as int) =~= seq![
            ("✓"@, Style::Green),
            (" "@ + decimal(total_files) + " files processed, no emojis found\n"@, Style::Plain),
        ]);
    }
}

/// A verbose reporter shows each emoji with its line and column in that order, and the
/// context after them; other reporters show nothing for a match.
pub proof fn lemma_match_line_before_column(
    verbosity: VerbosityLevel,
    line: nat,
    column: nat,
    emoji: Seq<char>,
    context: Seq<char>,
)
    ensures
        verbosity == VerbosityLevel::Verbose ==> match_output(
            verbosity,
            line,
            column,
            emoji,
            context,
        ).contains(
            (" "@ + emoji + " at line "@ + decimal(line) + ", column "@ + decimal(column) + " "@,
            Style::Plain),
        ) && match_output(verbosity, line, column, emoji, context).contains(
            ("("@ + context + ")"@, Style::Dimmed),
        ),
        verbosity != VerbosityLevel::Verbose ==> match_output(
            verbosity,
            line,
            column,
            emoji,
            context,
        ).len() == 0,
{
    let o = match_output(verbosity, line, column, emoji, context);
    if verbosity == VerbosityLevel::Verbose {
        assert(o[2] == (" "@ + emoji + " at line "@ + decimal(line) + ", column "@ + decimal(
            column,
        ) + " "@, Style::Plain));
        assert(o[3] == ("("@ + context + ")"@, Style::Dimmed));
    }
}

/// A file is announced with its path and its number: on one line after `Processing:` when
/// the verbosity is normal, with the path in bold after an arrow when verbose.
pub proof fn lemma_file_line_names_path_and_count(
    verbosity: VerbosityLevel,
    path: Seq<char>,
    count: nat,
)
    ensures
        verbosity == VerbosityLevel::Normal ==> file_output(verbosity, path, count) == seq![
            ("Processing:"@, Style::Cyan),
            (" "@ + path + " ["@ + decimal(count) + "]\n"@, Style::Plain),
        ],
        verbosity == VerbosityLevel::Verbose ==> file_output(verbosity, path, count).contains(
            (path, Style::Bold),
        ) && file_output(verbosity, path, count).contains(
            (" [File "@ + decimal(count) + "]\n"@, Style::Plain),
        ),
{
    let o = file_output(verbosity, path, count);
    if verbosity == VerbosityLevel::Verbose {
        assert(o[3] == (path, Style::Bold));
        assert(o[4] == (" [File "@ + decimal(count) + "]\n"@, Style::Plain));
    }
}

} // verus!
