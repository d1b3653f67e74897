use cmd3::command::{ArgSchema, OptionSpec};
use cmd3::completion::{propose_argument, Candidate, CommandCompleter, CommandInfo};

fn info(name: &str, positionals: &[&str], options: Vec<OptionSpec>) -> CommandInfo {
    CommandInfo {
        name: name.to_string(),
        schema: ArgSchema {
            positionals: positionals.iter().map(|id| id.to_string()).collect(),
            options,
        },
    }
}

fn completer() -> CommandCompleter {
    CommandCompleter::new(vec![
        info("dir", &["path", "depth"], vec![OptionSpec::Both("verbose".to_string(), 'v')]),
        info("dirx", &[], vec![]),
        info(
            "grep",
            &["pattern"],
            vec![
                OptionSpec::Long("invert".to_string()),
                OptionSpec::Short('i'),
                OptionSpec::Both("count".to_string(), 'c'),
                OptionSpec::Long("color".to_string()),
            ],
        ),
    ])
}

fn pair(display: &str, replacement: &str) -> Candidate {
    Candidate { display: display.to_string(), replacement: replacement.to_string() }
}

fn at_end(line: &str) -> (usize, Vec<Candidate>) {
    completer().complete(line, line.len())
}

#[test]
fn prefix_of_a_name_proposes_the_names_that_begin_with_it() {
    assert_eq!(at_end("di"), (0, vec![pair("dir", "dir"), pair("dirx", "dirx")]));
    assert_eq!(at_end("dirx"), (0, vec![pair("dirx", "dirx")]));
    assert_eq!(at_end("g"), (0, vec![pair("grep", "grep")]));
    assert_eq!(at_end("x"), (0, vec![]));
}

#[test]
fn empty_line_proposes_every_name() {
    assert_eq!(
        at_end(""),
        (0, vec![pair("dir", "dir"), pair("dirx", "dirx"), pair("grep", "grep")])
    );
}

#[test]
fn only_the_stage_under_the_cursor_counts() {
    assert_eq!(at_end("grep x |di"), (8, vec![pair("dir", "dir"), pair("dirx", "dirx")]));
    assert_eq!(at_end("grep x|dir|g"), (11, vec![pair("grep", "grep")]));
    assert_eq!(
        at_end("dir |"),
        (5, vec![pair("dir", "dir"), pair("dirx", "dirx"), pair("grep", "grep")])
    );
}

#[test]
fn blanks_before_any_word_propose_every_name_at_the_cursor() {
    assert_eq!(
        at_end("dir | "),
        (6, vec![pair("dir", "dir"), pair("dirx", "dirx"), pair("grep", "grep")])
    );
}

#[test]
fn pipe_inside_quotes_does_not_start_a_stage() {
    assert_eq!(at_end("grep 'a|b' --i"), (11, vec![pair("[--invert]", "--invert")]));
    assert_eq!(
        at_end("grep \"a|b\" --co"),
        (11, vec![pair("[--count]", "--count"), pair("[--color]", "--color")])
    );
}

#[test]
fn text_behind_the_cursor_is_not_looked_at() {
    assert_eq!(
        completer().complete("dir --help", 2),
        (0, vec![pair("dir", "dir"), pair("dirx", "dirx")])
    );
    assert_eq!(
        completer().complete("grep a | dirx", 1),
        (0, vec![pair("grep", "grep")])
    );
}

#[test]
fn fresh_word_shows_the_positional_arguments() {
    assert_eq!(at_end("dir "), (4, vec![pair("path", ""), pair("depth", "")]));
    assert_eq!(at_end("dir /tmp "), (9, vec![pair("path", ""), pair("depth", "")]));
    assert_eq!(at_end("grep\t"), (5, vec![pair("pattern", "")]));
    assert_eq!(at_end("dirx "), (5, vec![]));
}

#[test]
fn double_dash_proposes_long_forms() {
    assert_eq!(at_end("dir --"), (4, vec![pair("[--verbose]", "--verbose")]));
    assert_eq!(at_end("dir --verb"), (4, vec![pair("[--verbose]", "--verbose")]));
    assert_eq!(at_end("dir --verbose"), (4, vec![pair("[--verbose]", "--verbose")]));
    assert_eq!(at_end("dir --verbosex"), (4, vec![]));
    assert_eq!(
        at_end("grep --"),
        (
            5,
            vec![
                pair("[--invert]", "--invert"),
                pair("[--count]", "--count"),
                pair("[--color]", "--color"),
            ]
        )
    );
    assert_eq!(
        at_end("grep x --co"),
        (7, vec![pair("[--count]", "--count"), pair("[--color]", "--color")])
    );
}

#[test]
fn single_dash_proposes_short_forms_first() {
    assert_eq!(at_end("dir -"), (4, vec![pair("[-v, --verbose]", "-v ")]));
    assert_eq!(at_end("dir -v"), (4, vec![pair("[-v, --verbose]", "-v ")]));
    assert_eq!(at_end("dir -x"), (4, vec![]));
    assert_eq!(
        at_end("grep -"),
        (
            5,
            vec![
                pair("[--invert]", "--invert "),
                pair("[-i]", "-i "),
                pair("[-c, --count]", "-c "),
                pair("[--color]", "--color "),
            ]
        )
    );
    assert_eq!(at_end("grep -i"), (5, vec![pair("[-i]", "-i ")]));
}

#[test]
fn bare_word_behind_a_command_proposes_nothing() {
    assert_eq!(at_end("dir /tm"), (7, vec![]));
    assert_eq!(at_end("grep pat"), (8, vec![]));
}

#[test]
fn argument_of_an_unknown_command_proposes_nothing() {
    assert_eq!(at_end("nosuch "), (7, vec![]));
    assert_eq!(at_end("nosuch --"), (9, vec![]));
}

#[test]
fn text_that_cannot_be_broken_into_words_proposes_nothing() {
    // The offset is then that of the cursor in its stage.
    assert_eq!(at_end("dir 'abc"), (8, vec![]));
    assert_eq!(at_end("grep x | dir \"a"), (7, vec![]));
    assert_eq!(at_end("grep 'a|di"), (10, vec![]));
}

#[test]
fn name_behind_blanks_is_a_word_of_a_command() {
    // One word, but white space before it: the word is taken as the command and
    // as the unfinished word, and a bare word proposes nothing.
    assert_eq!(at_end(" dir"), (4, vec![]));
    assert_eq!(at_end(" di"), (3, vec![]));
}

#[test]
fn offsets_are_in_bytes() {
    assert_eq!(at_end("grep é |di"), (9, vec![pair("dir", "dir"), pair("dirx", "dirx")]));
    assert_eq!(at_end("grep é --inv"), (8, vec![pair("[--invert]", "--invert")]));
    assert_eq!(at_end("é"), (0, vec![]));
}

#[test]
fn quoted_word_is_completed_by_what_it_stands_for() {
    assert_eq!(at_end("dir '--verb'"), (6, vec![pair("[--verbose]", "--verbose")]));
}

#[test]
fn propose_argument_on_a_schema() {
    let schema = ArgSchema {
        positionals: vec!["file".to_string()],
        options: vec![OptionSpec::Short('q'), OptionSpec::Long("quiet".to_string())],
    };
    assert_eq!(propose_argument(&schema, "cat ", "cat", 4), (4, vec![pair("file", "")]));
    assert_eq!(
        propose_argument(&schema, "cat --q", "--q", 7),
        (4, vec![pair("[--quiet]", "--quiet")])
    );
    assert_eq!(
        propose_argument(&schema, "cat -", "-", 5),
        (4, vec![pair("[-q]", "-q "), pair("[--quiet]", "--quiet ")])
    );
    assert_eq!(propose_argument(&schema, "cat x", "x", 5), (5, vec![]));
    assert_eq!(propose_argument(&schema, "-", "-----", 1), (0, vec![]));
}

#[test]
fn complete_words_takes_the_words_as_given() {
    let completer = completer();
    let words = |list: &[&str]| Some(list.iter().map(|w| w.to_string()).collect::<Vec<_>>());
    assert_eq!(completer.complete_words("di", words(&["di"]), 2).1.len(), 2);
    assert_eq!(completer.complete_words("di", words(&[]), 2), (2, at_end("").1));
    assert_eq!(completer.complete_words("dir 'a", None, 10), (6, vec![]));
    assert_eq!(
        completer.complete_words("grep -c", words(&["grep", "-c"]), 7),
        (5, vec![pair("[-c, --count]", "-c ")])
    );
}

#[test]
fn white_space_of_any_kind_ends_the_name_of_a_command() {
    // A no-break space is white space, though it separates no words.
    assert_eq!(at_end("dir\u{a0}"), (5, vec![]));
    assert_eq!(at_end("di\u{a0}"), (4, vec![]));
}

#[test]
fn option_has_a_long_form_a_short_form_or_both() {
    assert_eq!(OptionSpec::new(None, None), None);
    assert_eq!(OptionSpec::new(None, Some('v')), Some(OptionSpec::Short('v')));
    assert_eq!(
        OptionSpec::new(Some("verbose".to_string()), None),
        Some(OptionSpec::Long("verbose".to_string()))
    );
    assert_eq!(
        OptionSpec::new(Some("verbose".to_string()), Some('v')),
        Some(OptionSpec::Both("verbose".to_string(), 'v'))
    );
    let both = OptionSpec::Both("verbose".to_string(), 'v');
    assert_eq!(both.long(), Some("verbose"));
    assert_eq!(both.short(), Some('v'));
    assert_eq!(OptionSpec::Short('q').long(), None);
    assert_eq!(OptionSpec::Short('q').short(), Some('q'));
    assert_eq!(OptionSpec::Long("quiet".to_string()).long(), Some("quiet"));
    assert_eq!(OptionSpec::Long("quiet".to_string()).short(), None);
}

#[test]
fn every_cursor_between_characters_is_answered_within_the_line() {
    let completer = completer();
    let lines = [
        "",
        "dir --verbose /tmp | grep -c 'a|b' | dirx",
        "grep \"é|ü\" --co|di",
        "  dir\t-v  ",
        "'unfinished | dir --",
        "日本語 | grep -",
        "dir\\ x --v|'|'|\"|\" -",
        "!ls -l | grep --",
    ];
    for line in lines {
        for pos in 0..=line.len() {
            if !line.is_char_boundary(pos) {
                continue;
            }
            let (start, candidates) = completer.complete(line, pos);
            assert!(start <= pos, "{:?} at {}", line, pos);
            assert!(line.is_char_boundary(start), "{:?} at {}", line, pos);
            for candidate in candidates {
                assert!(!candidate.display.is_empty());
            }
        }
    }
}
