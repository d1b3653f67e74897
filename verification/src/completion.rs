//! Completion at the cursor.
//!
//! Only the stage under the cursor counts: the text between the last `|` outside
//! quotes and the cursor. With one unfinished word and nothing before it, the
//! names of the commands complete it. Behind the name of a command, a fresh word
//! is met with the names of the command's positional arguments, shown but never
//! inserted, and a word that begins with `-` with the command's options.

use vstd::prelude::*;
use vstd::string::{StrSliceExecFns, StringExecFns};
use vstd::utf8::{decode_utf8, encode_utf8, is_char_boundary};
use crate::command::{ArgSchema, Command, OptionSpec, OptionView, SchemaView};
use crate::console::{lemma_position_in_prefix, position, Console};
use crate::split::{split_stages, stage_bounds};
use crate::text::{
    byte_len, bytes_in, chars_of, contains_white_space, ends_in_white_space, ends_with_white_space,
    has_white_space, lemma_encode_concat, starts_with, views,
};
use crate::words::{shell_words, split_words};

verus! {

/// One proposal: the text that is shown and the text that is put in.
#[derive(Debug, Clone, PartialEq, Eq)]
pub struct Candidate {
    pub display: String,
    pub replacement: String,
}

/// A [`Candidate`] with both texts taken by their characters.
pub struct CandidateView {
    pub display: Seq<char>,
    pub replacement: Seq<char>,
}

impl View for Candidate {
    type V = CandidateView;

    open spec fn view(&self) -> CandidateView {
        CandidateView { display: self.display@, replacement: self.replacement@ }
    }
}

/// The views of a sequence of candidates, one for one.
pub open spec fn candidate_views(candidates: Seq<Candidate>) -> Seq<CandidateView> {
    candidates.map_values(|c: Candidate| c@)
}

/// What a completer knows of a command: its name and the arguments that it declares.
#[derive(Debug, Clone, PartialEq, Eq)]
pub struct CommandInfo {
    pub name: String,
    pub schema: ArgSchema,
}

/// A [`CommandInfo`] as plain sequences.
pub struct InfoView {
    pub name: Seq<char>,
    pub schema: SchemaView,
}

impl View for CommandInfo {
    type V = InfoView;

    open spec fn view(&self) -> InfoView {
        InfoView { name: self.name@, schema: self.schema@ }
    }
}

/// The text of `line` that stands before the byte offset `pos`.
pub open spec fn text_before(line: Seq<char>, pos: int) -> Seq<char> {
    decode_utf8(encode_utf8(line).subrange(0, pos))
}

/// Every position between two characters of a line can hold the cursor: the length
/// in bytes of what stands before it is a character boundary, and the text before
/// that offset is what stands before the position.
pub proof fn lemma_text_before(line: Seq<char>, n: int)
    requires
        0 <= n <= line.len(),
    ensures
        is_char_boundary(encode_utf8(line), byte_len(line.take(n)) as int),
        text_before(line, byte_len(line.take(n)) as int) == line.take(n),
{
    let head = line.take(n);
    let tail = line.skip(n);
    assert(line =~= head + tail);
    crate::text::lemma_boundary_between(head, tail);
    lemma_encode_concat(head, tail);
    assert(encode_utf8(line).subrange(0, byte_len(head) as int) =~= encode_utf8(head));
    vstd::utf8::encode_utf8_decode_utf8(head);
}

/// The stage under the cursor: of the text before the cursor, what follows the last
/// `|` outside quotes.
pub open spec fn current_stage(line: Seq<char>, pos: int) -> Seq<char> {
    split_stages(text_before(line, pos)).last()
}

/// The byte offset at which a text begins that ends at the offset `pos`; the start
/// of the line, should the text be longer than that.
pub open spec fn start_of(text: Seq<char>, pos: int) -> int {
    if byte_len(text) <= pos {
        pos - byte_len(text)
    } else {
        0
    }
}

/// The names of `commands`, one for one.
pub open spec fn names_of(commands: Seq<InfoView>) -> Seq<Seq<char>> {
    commands.map_values(|c: InfoView| c.name)
}

/// The schema of the first command that is named `name`, if there is one.
pub open spec fn schema_of(commands: Seq<InfoView>, name: Seq<char>) -> Option<SchemaView> {
    match position(names_of(commands), name) {
        Some(i) => Some(commands[i].schema),
        None => None,
    }
}

/// The proposal that a command makes for the unfinished name `prefix`: its own name,
/// if the name begins with the prefix.
pub open spec fn name_offer(command: InfoView, prefix: Seq<char>) -> Option<CandidateView> {
    if prefix.is_prefix_of(command.name) {
        Some(CandidateView { display: command.name, replacement: command.name })
    } else {
        None
    }
}

/// The hint for a positional argument: its name is shown, nothing is put in.
pub open spec fn positional_hint(id: Seq<char>) -> Option<CandidateView> {
    Some(CandidateView { display: id, replacement: Seq::empty() })
}

/// The long form of an option as it is typed: `--long`.
pub open spec fn long_flag(long: Seq<char>) -> Seq<char> {
    seq!['-', '-'] + long
}

/// The short form of an option as it is typed: `-s`.
pub open spec fn short_flag(short: char) -> Seq<char> {
    seq!['-', short]
}

/// `text` between square brackets.
pub open spec fn bracketed(text: Seq<char>) -> Seq<char> {
    seq!['['] + text + seq![']']
}

/// The proposal that an option makes for a word that begins with `--`: its long
/// form, if it has one that begins with the word.
pub open spec fn long_offer(option: OptionView, word: Seq<char>) -> Option<CandidateView> {
    match option {
        OptionView::Short(_) => None,
        OptionView::Long(long) | OptionView::Both(long, _) => if word.is_prefix_of(
            long_flag(long),
        ) {
            Some(
                CandidateView {
                    display: bracketed(long_flag(long)),
                    replacement: long_flag(long),
                },
            )
        } else {
            None
        },
    }
}

/// What an option shows for a word that begins with a single `-`: both forms where
/// it has both, else the one it has.
pub open spec fn dash_display(option: OptionView) -> Seq<char> {
    match option {
        OptionView::Both(long, short) => bracketed(
            short_flag(short) + seq![',', ' '] + long_flag(long),
        ),
        OptionView::Long(long) => bracketed(long_flag(long)),
        OptionView::Short(short) => bracketed(short_flag(short)),
    }
}

/// What an option puts in for a word that begins with a single `-`: its short form
/// where it has one, else its long form; then a blank.
pub open spec fn dash_replacement(option: OptionView) -> Seq<char> {
    match option {
        OptionView::Both(_, short) | OptionView::Short(short) => short_flag(short).push(' '),
        OptionView::Long(long) => long_flag(long).push(' '),
    }
}

/// The proposal that an option makes for a word that begins with a single `-`, if
/// what it would put in begins with the word.
pub open spec fn dash_offer(option: OptionView, word: Seq<char>) -> Option<CandidateView> {
    if word.is_prefix_of(dash_replacement(option)) {
        Some(
            CandidateView { display: dash_display(option), replacement: dash_replacement(option) },
        )
    } else {
        None
    }
}

/// The proposals for an argument of a command with the schema `schema`. `stage` is
/// the text of the stage before the cursor and `word` its last word.
pub open spec fn argument_proposals(
    schema: SchemaView,
    stage: Seq<char>,
    word: Seq<char>,
    pos: int,
) -> (int, Seq<CandidateView>) {
    if ends_in_white_space(stage) {
        (pos, schema.positionals.filter_map(|id: Seq<char>| positional_hint(id)))
    } else if seq!['-', '-'].is_prefix_of(word) {
        (start_of(word, pos), schema.options.filter_map(|o: OptionView| long_offer(o, word)))
    } else if seq!['-'].is_prefix_of(word) {
        (start_of(word, pos), schema.options.filter_map(|o: OptionView| dash_offer(o, word)))
    } else {
        (pos, Seq::empty())
    }
}

/// Whether the cursor stands in the name of a command: no word has been begun, or
/// one has and the stage holds no white space.
pub open spec fn names_command(stage: Seq<char>, words: Seq<Seq<char>>) -> bool {
    words.len() == 0 || (words.len() == 1 && !has_white_space(stage))
}

/// The proposals at the cursor: where the replacement begins, as a byte offset into
/// the line, and the candidates in order. `stage` is the text of the stage before
/// the cursor, `words` what became of breaking it into words, and `pos` the byte
/// offset of the cursor.
pub open spec fn proposals(
    commands: Seq<InfoView>,
    stage: Seq<char>,
    words: Option<Seq<Seq<char>>>,
    pos: int,
) -> (int, Seq<CandidateView>) {
    match words {
        None => (byte_len(stage) as int, Seq::empty()),
        Some(words) => if names_command(stage, words) {
            let prefix = if words.len() == 0 {
                Seq::empty()
            } else {
                stage
            };
            (start_of(prefix, pos), commands.filter_map(|c: InfoView| name_offer(c, prefix)))
        } else {
            match schema_of(commands, words[0]) {
                None => (pos, Seq::empty()),
                Some(schema) => argument_proposals(schema, stage, words.last(), pos),
            }
        },
    }
}

/// `text` between square brackets.
fn in_brackets(text: &str) -> (shown: String)
    ensures
        shown@ == bracketed(text@),
{
    let mut shown = String::new();
    shown.push('[');
    shown.append(text);
    shown.push(']');
    shown
}

/// The long form of an option as it is typed.
fn long_form(long: &str) -> (flag: String)
    ensures
        flag@ == long_flag(long@),
{
    let mut flag = String::new();
    flag.push('-');
    flag.push('-');
    flag.append(long);
    flag
}

/// The short form of an option as it is typed.
fn short_form(short: char) -> (flag: String)
    ensures
        flag@ == short_flag(short),
{
    let mut flag = String::new();
    flag.push('-');
    flag.push(short);
    flag
}

/// The byte offset at which `text` begins if it ends at the offset `pos`.
fn start_before(text: &str, pos: usize) -> (start: usize)
    ensures
        start == start_of(text@, pos as int),
{
    let n: usize = bytes_in(text);
    if n <= pos {
        pos - n
    } else {
        0
    }
}

/// The proposal of `option` for a word that begins with `--`.
fn offer_long(option: &OptionSpec, word: &Vec<char>) -> (offer: Option<Candidate>)
    ensures
        match offer {
            Some(candidate) => long_offer(option@, word@) == Some(candidate@),
            None => long_offer(option@, word@) is None,
        },
{
    match option {
        OptionSpec::Short(_) => None,
        OptionSpec::Long(long) | OptionSpec::Both(long, _) => {
            let replacement = long_form(long.as_str());
            if starts_with(&chars_of(replacement.as_str()), word) {
                Some(Candidate { display: in_brackets(replacement.as_str()), replacement })
            } else {
                None
            }
        },
    }
}

/// The proposal of `option` for a word that begins with a single `-`.
fn offer_dash(option: &OptionSpec, word: &Vec<char>) -> (offer: Option<Candidate>)
    ensures
        match offer {
            Some(candidate) => dash_offer(option@, word@) == Some(candidate@),
            None => dash_offer(option@, word@) is None,
        },
{
    let (display, replacement) = match option {
        OptionSpec::Both(long, short) => {
            let mut both = short_form(*short);
            both.push(',');
            both.push(' ');
            both.append(long_form(long.as_str()).as_str());
            let mut replacement = short_form(*short);
            replacement.push(' ');
            (in_brackets(both.as_str()), replacement)
        },
        OptionSpec::Long(long) => {
            let mut replacement = long_form(long.as_str());
            let display = in_brackets(replacement.as_str());
            replacement.push(' ');
            (display, replacement)
        },
        OptionSpec::Short(short) => {
            let mut replacement = short_form(*short);
            let display = in_brackets(replacement.as_str());
            replacement.push(' ');
            (display, replacement)
        },
    };
    assert(display@ =~= dash_display(option@));
    if starts_with(&chars_of(replacement.as_str()), word) {
        Some(Candidate { display, replacement })
    } else {
        None
    }
}

/// The hints for the positional arguments of `schema`.
fn hint_positionals(schema: &ArgSchema) -> (hints: Vec<Candidate>)
    ensures
        candidate_views(hints@) == schema@.positionals.filter_map(
            |id: Seq<char>| positional_hint(id),
        ),
{
    let ghost ids = schema@.positionals;
    let ghost hint = |id: Seq<char>| positional_hint(id);
    let mut hints: Vec<Candidate> = Vec::new();
    let mut i: usize = 0;
    while i < schema.positionals.len()
        invariant
            i <= schema.positionals@.len(),
            ids == schema@.positionals,
            hint == |id: Seq<char>| positional_hint(id),
            candidate_views(hints@) == ids.take(i as int).filter_map(hint),
        decreases schema.positionals@.len() - i,
    {
        assert(ids.take(i + 1).drop_last() =~= ids.take(i as int));
        let candidate = Candidate {
            display: schema.positionals[i].clone(),
            replacement: String::new(),
        };
        hints.push(candidate);
        i += 1;
    }
    assert(ids.take(i as int) =~= ids);
    hints
}

/// The proposals of the options of `schema` for `word`, which begins with `--`.
fn offer_long_forms(schema: &ArgSchema, word: &Vec<char>) -> (offers: Vec<Candidate>)
    ensures
        candidate_views(offers@) == schema@.options.filter_map(
            |o: OptionView| long_offer(o, word@),
        ),
{
    let ghost options = schema@.options;
    let ghost offer = |o: OptionView| long_offer(o, word@);
    let mut offers: Vec<Candidate> = Vec::new();
    let mut i: usize = 0;
    while i < schema.options.len()
        invariant
            i <= schema.options@.len(),
            options == schema@.options,
            offer == |o: OptionView| long_offer(o, word@),
            candidate_views(offers@) == options.take(i as int).filter_map(offer),
        decreases schema.options@.len() - i,
    {
        assert(options.take(i + 1).drop_last() =~= options.take(i as int));
        match offer_long(&schema.options[i], word) {
            Some(candidate) => {
                offers.push(candidate);
            },
            None => {},
        }
        i += 1;
    }
    assert(options.take(i as int) =~= options);
    offers
}

/// The proposals of the options of `schema` for `word`, which begins with a single
/// `-`.
fn offer_dash_forms(schema: &ArgSchema, word: &Vec<char>) -> (offers: Vec<Candidate>)
    ensures
        candidate_views(offers@) == schema@.options.filter_map(
            |o: OptionView| dash_offer(o, word@),
        ),
{
    let ghost options = schema@.options;
    let ghost offer = |o: OptionView| dash_offer(o, word@);
    let mut offers: Vec<Candidate> = Vec::new();
    let mut i: usize = 0;
    while i < schema.options.len()
        invariant
            i <= schema.options@.len(),
            options == schema@.options,
            offer == |o: OptionView| dash_offer(o, word@),
            candidate_views(offers@) == options.take(i as int).filter_map(offer),
        decreases schema.options@.len() - i,
    {
        assert(options.take(i + 1).drop_last() =~= options.take(i as int));
        match offer_dash(&schema.options[i], word) {
            Some(candidate) => {
                offers.push(candidate);
            },
            None => {},
        }
        i += 1;
    }
    assert(options.take(i as int) =~= options);
    offers
}

/// Proposes completions for an argument of a command with the schema `schema`.
/// `stage` is the text of the stage before the cursor, `word` its last word, and
/// `pos` the byte offset of the cursor.
pub fn propose_argument(schema: &ArgSchema, stage: &str, word: &str, pos: usize) -> (found: (
    usize,
    Vec<Candidate>,
))
    ensures
        (found.0 as int, candidate_views(found.1@)) == argument_proposals(
            schema@,
            stage@,
            word@,
            pos as int,
        ),
{
    let letters = chars_of(word);
    if ends_with_white_space(&chars_of(stage)) {
        (pos, hint_positionals(schema))
    } else if letters.len() >= 2 && letters[0] == '-' && letters[1] == '-' {
        (start_before(word, pos), offer_long_forms(schema, &letters))
    } else if letters.len() >= 1 && letters[0] == '-' {
        (start_before(word, pos), offer_dash_forms(schema, &letters))
    } else {
        assert(letters@.len() >= 1 ==> letters@.subrange(0, 1)[0] == letters@[0]);
        let none: Vec<Candidate> = Vec::new();
        (pos, none)
    }
}

/// Completes what is typed at the cursor from the commands that it was given.
pub struct CommandCompleter {
    commands: Vec<CommandInfo>,
}

impl CommandCompleter {
    /// The commands that the completer knows, in order.
    pub closed spec fn commands(&self) -> Seq<InfoView> {
        self.commands@.map_values(|c: CommandInfo| c@)
    }

    /// A completer for `commands`.
    pub fn new(commands: Vec<CommandInfo>) -> (completer: Self)
        ensures
            completer.commands() == commands@.map_values(|c: CommandInfo| c@),
    {
        CommandCompleter { commands }
    }

    /// The schema of the first command that is named `name`.
    fn schema(&self, name: &String) -> (found: Option<&ArgSchema>)
        ensures
            match found {
                Some(schema) => schema_of(self.commands(), name@) == Some(schema@),
                None => schema_of(self.commands(), name@) is None,
            },
    {
        let ghost names = names_of(self.commands());
        let mut i: usize = 0;
        while i < self.commands.len()
            invariant
                i <= self.commands@.len(),
                names == names_of(self.commands()),
                position(names.take(i as int), name@) is None,
            decreases self.commands@.len() - i,
        {
            assert(names.take(i + 1).drop_last() =~= names.take(i as int));
            if self.commands[i].name == *name {
                proof {
                    lemma_position_in_prefix(names, i + 1, name@);
                }
                return Some(&self.commands[i].schema);
            }
            i += 1;
        }
        assert(names.take(i as int) =~= names);
        None
    }

    /// The names of the commands that begin with `prefix`, each as a proposal.
    fn offer_names(&self, prefix: &Vec<char>) -> (offers: Vec<Candidate>)
        ensures
            candidate_views(offers@) == self.commands().filter_map(
                |c: InfoView| name_offer(c, prefix@),
            ),
    {
        let ghost all = self.commands();
        let ghost offer = |c: InfoView| name_offer(c, prefix@);
        let mut offers: Vec<Candidate> = Vec::new();
        let mut i: usize = 0;
        while i < self.commands.len()
            invariant
                i <= self.commands@.len(),
                all == self.commands(),
                offer == |c: InfoView| name_offer(c, prefix@),
                candidate_views(offers@) == all.take(i as int).filter_map(offer),
            decreases self.commands@.len() - i,
        {
            assert(all.take(i + 1).drop_last() =~= all.take(i as int));
            let name = &self.commands[i].name;
            if starts_with(&chars_of(name.as_str()), prefix) {
                let candidate = Candidate { display: name.clone(), replacement: name.clone() };
                offers.push(candidate);
            }
            i += 1;
        }
        assert(all.take(i as int) =~= all);
        offers
    }

    /// Proposes completions from the stage under the cursor and from what became of
    /// breaking it into words. `stage` is the text of the stage before the cursor and
    /// `pos` the byte offset of the cursor in the line.
    pub fn complete_words(&self, stage: &str, words: Option<Vec<String>>, pos: usize) -> (found: (
        usize,
        Vec<Candidate>,
    ))
        ensures
            (found.0 as int, candidate_views(found.1@)) == proposals(
                self.commands(),
                stage@,
                match words {
                    Some(list) => Some(views(list@)),
                    None => None,
                },
                pos as int,
            ),
    {
        let none: Vec<Candidate> = Vec::new();
        let words = match words {
            Some(words) => words,
            None => {
                return (bytes_in(stage), none);
            },
        };
        let letters = chars_of(stage);
        if words.len() == 0 {
            let prefix: Vec<char> = Vec::new();
            return (pos, self.offer_names(&prefix));
        }
        if words.len() == 1 && !contains_white_space(&letters) {
            return (start_before(stage, pos), self.offer_names(&letters));
        }
        match self.schema(&words[0]) {
            None => (pos, none),
            Some(schema) => propose_argument(schema, stage, words[words.len() - 1].as_str(), pos),
        }
    }

    /// Proposes completions for the cursor at the byte offset `pos` of `line`: where
    /// the replacement begins, as a byte offset into the line, and the candidates in
    /// order. `pos` must lie in the line and between two characters.
    pub fn complete(&self, line: &str, pos: usize) -> (found: (usize, Vec<Candidate>))
        requires
            is_char_boundary(encode_utf8(line@), pos as int),
        ensures
            (found.0 as int, candidate_views(found.1@)) == proposals(
                self.commands(),
                current_stage(line@, pos as int),
                shell_words(current_stage(line@, pos as int)),
                pos as int,
            ),
            found.0 <= pos,
    {
        proof {
            vstd::utf8::encode_utf8_valid_utf8(line@);
        }
        let (before, _) = line.split_at(pos);
        proof {
            vstd::utf8::encode_utf8_decode_utf8(before@);
        }
        let letters = chars_of(before);
        let bounds = stage_bounds(&letters);
        let (from, to) = bounds[bounds.len() - 1];
        let stage = before.substring_char(from, to);
        proof {
            assert(before@ =~= before@.subrange(0, from as int) + stage@);
            lemma_encode_concat(before@.subrange(0, from as int), stage@);
        }
        self.complete_words(stage, split_words(stage), pos)
    }
}

impl<C: Command> Console<C> {
    /// A completer for the commands of the console: each under its name, with the
    /// arguments that it declares now.
    pub fn completer(&self) -> (completer: CommandCompleter)
        ensures
            names_of(completer.commands()) == self.names(),
    {
        let mut commands: Vec<CommandInfo> = Vec::new();
        let n: usize = self.len();
        let mut i: usize = 0;
        while i < n
            invariant
                i <= n,
                n == self.names().len(),
                n == self.commands().len(),
                commands@.len() == i,
                forall|j: int| 0 <= j < i ==> (#[trigger] commands@[j]).name@ == self.names()[j],
            decreases n - i,
        {
            let (name, command) = self.entry(i);
            commands.push(CommandInfo { name: name.to_owned(), schema: command.get_schema() });
            i += 1;
        }
        CommandCompleter::new(commands)
    }
}

} // verus!
