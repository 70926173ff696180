//! Which external editor to run, and what a session with it came to.
use crate::text::{is_space, lemma_word, opt_view, split_words, views, word_len, words};
use vstd::prelude::*;
use vstd::string::*;

verus! {

/// A command line as its program and arguments: the first word and the rest.
pub open spec fn command_of(s: Seq<char>) -> Option<(Seq<char>, Seq<Seq<char>>)> {
    let w = words(s);
    if w.len() == 0 {
        None
    } else {
        Some((w[0], w.skip(1)))
    }
}

pub open spec fn command_view(c: Option<(String, Vec<String>)>) -> Option<
    (Seq<char>, Seq<Seq<char>>),
> {
    match c {
        Some(c) => Some((c.0@, views(c.1@))),
        None => None,
    }
}

/// Splits a command line at white space. A blank one names no program.
pub fn parse_editor_command(s: &str) -> (r: Option<(String, Vec<String>)>)
    ensures
        command_view(r) == command_of(s@),
{
    let mut parts = split_words(s);
    if parts.len() == 0 {
        return None;
    }
    let ghost all = parts@;
    let prog = parts.remove(0);
    assert(views(all)[0] == prog@);
    assert(views(parts@) =~= words(s@).skip(1));
    Some((prog, parts))
}

/// The command that a setting gives, if it is set and not blank.
pub open spec fn given_command(setting: Option<Seq<char>>) -> Option<(Seq<char>, Seq<Seq<char>>)> {
    match setting {
        Some(s) => command_of(s),
        None => None,
    }
}

/// The editor in force: the preference, else `$VISUAL`, else `$EDITOR`, each
/// passed over when it is blank, else `vi` where the system is a Unix.
pub open spec fn editor_of(
    pref: Option<Seq<char>>,
    visual: Option<Seq<char>>,
    editor: Option<Seq<char>>,
    unix: bool,
) -> Option<(Seq<char>, Seq<Seq<char>>)> {
    if given_command(pref) is Some {
        given_command(pref)
    } else if given_command(visual) is Some {
        given_command(visual)
    } else if given_command(editor) is Some {
        given_command(editor)
    } else if unix {
        Some(("vi"@, Seq::empty()))
    } else {
        None
    }
}

pub fn resolve_editor(
    pref: &Option<String>,
    visual: &Option<String>,
    editor: &Option<String>,
    unix: bool,
) -> (r: Option<(String, Vec<String>)>)
    ensures
        command_view(r) == editor_of(opt_view(*pref), opt_view(*visual), opt_view(*editor), unix),
{
    if let Some(s) = pref {
        let cmd = parse_editor_command(s.as_str());
        if cmd.is_some() {
            return cmd;
        }
    }
    if let Some(s) = visual {
        let cmd = parse_editor_command(s.as_str());
        if cmd.is_some() {
            return cmd;
        }
    }
    if let Some(s) = editor {
        let cmd = parse_editor_command(s.as_str());
        if cmd.is_some() {
            return cmd;
        }
    }
    if unix {
        let args: Vec<String> = Vec::new();
        assert(views(args@) =~= Seq::<Seq<char>>::empty());
        Some(("vi".to_owned(), args))
    } else {
        None
    }
}

/// What a session with an editor came to: the editor's own failure if it
/// could not be run, else the failure to restore the terminal.
pub fn launch_outcome(run: Option<String>, restore: Option<String>) -> (r: Option<String>)
    ensures
        r == (if run is Some {
            run
        } else {
            restore
        }),
{
    match run {
        Some(e) => Some(e),
        None => restore,
    }
}

/// The words of a command line hold no white space, so a program name and its
/// arguments are never blank.
pub proof fn law_words_are_solid(s: Seq<char>, i: int, j: int)
    requires
        0 <= i < words(s).len(),
        0 <= j < words(s)[i].len(),
    ensures
        !is_space(words(s)[i][j]),
        words(s)[i].len() > 0,
    decreases s.len(),
{
    if is_space(s[0]) {
        law_words_are_solid(s.skip(1), i, j);
    } else {
        let n = word_len(s) as int;
        lemma_word(s);
        if i > 0 {
            assert(words(s)[i] == words(s.skip(n))[i - 1]);
            law_words_are_solid(s.skip(n), i - 1, j);
        }
    }
}

} // verus!
