//! Commands: which messages are one, and the words that one is made of.

use regex::Regex;
use vstd::prelude::*;

use crate::text::{opt_text, texts};

verus! {

/// `regex::Regex`, a compiled pattern.
#[verifier::external_type_specification]
#[verifier::external_body]
pub struct ExRegex(Regex);

/// The pattern that a regular expression was compiled from.
pub uninterp spec fn regex_pattern(regex: Regex) -> Seq<char>;

/// Whether a pattern is a regular expression, within the size that one may have.
pub uninterp spec fn regex_compiles(pattern: Seq<char>) -> bool;

/// Whether a pattern matches somewhere in a text.
pub uninterp spec fn regex_matches(pattern: Seq<char>, text: Seq<char>) -> bool;

/// The matches of a pattern in a text, one after the other, each as the texts of its groups: the
/// whole match first, then the groups in the order of their opening parentheses.
pub uninterp spec fn regex_captures(pattern: Seq<char>, text: Seq<char>) -> Seq<
    Seq<Option<Seq<char>>>,
>;

/// `Regex::new` compiles a pattern, or fails on one that is no regular expression.
#[verifier::external_body]
fn compile(pattern: &str) -> (r: Option<Regex>)
    ensures
        r is Some <==> regex_compiles(pattern@),
        r is Some ==> regex_pattern(r->0) == pattern@,
{
    Regex::new(pattern).ok()
}

/// `Regex::is_match` tells whether the pattern matches somewhere in the text.
#[verifier::external_body]
fn is_match(regex: &Regex, text: &str) -> (r: bool)
    ensures
        r == regex_matches(regex_pattern(*regex), text@),
{
    regex.is_match(text)
}

/// The texts of the groups of one match.
pub open spec fn group_texts(groups: Seq<Option<String>>) -> Seq<Option<Seq<char>>> {
    groups.map_values(|g: Option<String>| opt_text(g))
}

/// The texts of the groups of several matches.
pub open spec fn match_texts(matches: Seq<Vec<Option<String>>>) -> Seq<Seq<Option<Seq<char>>>> {
    matches.map_values(|groups: Vec<Option<String>>| group_texts(groups@))
}

/// `Regex::captures_iter` goes through the matches in the text; each is turned into the texts of
/// its groups, of which those that took no part in the match have none.
#[verifier::external_body]
fn captures(regex: &Regex, text: &str) -> (r: Vec<Vec<Option<String>>>)
    ensures
        match_texts(r@) == regex_captures(regex_pattern(*regex), text@),
{
    regex.captures_iter(text).map(
        |groups| groups.iter().map(|g| g.map(|m| m.as_str().to_string())).collect(),
    ).collect()
}

/// The words of one match: the texts of the groups after the whole match, without those that took
/// no part.
pub open spec fn words_of_match(groups: Seq<Option<Seq<char>>>) -> Seq<Seq<char>>
    decreases groups.len(),
{
    if groups.len() <= 1 {
        seq![]
    } else {
        let front = words_of_match(groups.drop_last());
        match groups.last() {
            Some(word) => front.push(word),
            None => front,
        }
    }
}

/// The words of all matches, one match after the other.
pub open spec fn words_of_matches(matches: Seq<Seq<Option<Seq<char>>>>) -> Seq<Seq<char>>
    decreases matches.len(),
{
    if matches.len() == 0 {
        seq![]
    } else {
        words_of_matches(matches.drop_last()) + words_of_match(matches.last())
    }
}

/// Collects the words of all matches.
pub fn command_words(matches: &Vec<Vec<Option<String>>>) -> (r: Vec<String>)
    ensures
        texts(r@) == words_of_matches(match_texts(matches@)),
{
    let mut words: Vec<String> = Vec::new();
    let ghost all = match_texts(matches@);
    let mut i: usize = 0;
    while i < matches.len()
        invariant
            i <= matches.len(),
            all == match_texts(matches@),
            texts(words@) == words_of_matches(all.take(i as int)),
        decreases matches.len() - i,
    {
        let groups: &Vec<Option<String>> = &matches[i];
        let ghost before = texts(words@);
        let ghost own = group_texts(groups@);
        assert(own == all[i as int]);
        let mut j: usize = 0;
        assert(words_of_match(own.take(0)) == Seq::<Seq<char>>::empty());
        assert(texts(words@) == before + words_of_match(own.take(0)));
        while j < groups.len()
            invariant
                j <= groups.len(),
                own == group_texts(groups@),
                texts(words@) == before + words_of_match(own.take(j as int)),
            decreases groups.len() - j,
        {
            proof {
                let next = own.take(j + 1);
                assert(next.drop_last() == own.take(j as int));
                assert(next.last() == own[j as int]);
            }
            if j > 0 {
                match &groups[j] {
                    Some(word) => {
                        let ghost old_words = words@;
                        words.push(word.clone());
                        assert(texts(words@) == texts(old_words).push(word@));
                        assert(texts(words@) == before + words_of_match(own.take(j as int)).push(
                            word@,
                        ));
                    },
                    None => {},
                }
            } else {
                assert(words_of_match(own.take(1)) == Seq::<Seq<char>>::empty());
            }
            j = j + 1;
        }
        proof {
            assert(own.take(j as int) == own);
            assert(all.take(i + 1).drop_last() == all.take(i as int));
            assert(all.take(i + 1).last() == own);
        }
        i = i + 1;
    }
    assert(all.take(i as int) == all);
    words
}

/// The words of a command, given whether its message is one at all and, where a pattern says how
/// to take it apart, that pattern's matches. Without such a pattern a command has no words.
pub open spec fn command_from(
    is_command: bool,
    matches: Option<Seq<Seq<Option<Seq<char>>>>>,
) -> Option<Seq<Seq<char>>> {
    if !is_command {
        None
    } else {
        match matches {
            Some(m) => Some(words_of_matches(m)),
            None => Some(seq![]),
        }
    }
}

/// The texts of optional words.
pub open spec fn opt_texts(words: Option<Vec<String>>) -> Option<Seq<Seq<char>>> {
    match words {
        Some(w) => Some(texts(w@)),
        None => None,
    }
}

/// The texts of optional matches.
pub open spec fn opt_match_texts(matches: Option<Vec<Vec<Option<String>>>>) -> Option<
    Seq<Seq<Option<Seq<char>>>>,
> {
    match matches {
        Some(m) => Some(match_texts(m@)),
        None => None,
    }
}

/// Makes up the words of a command from what the patterns said of the message.
pub fn assemble_command(is_command: bool, matches: Option<Vec<Vec<Option<String>>>>) -> (r: Option<
    Vec<String>,
>)
    ensures
        opt_texts(r) == command_from(is_command, opt_match_texts(matches)),
{
    if !is_command {
        return None;
    }
    match matches {
        Some(m) => Some(command_words(&m)),
        None => {
            let none: Vec<String> = Vec::new();
            assert(texts(none@) == Seq::<Seq<char>>::empty());
            Some(none)
        },
    }
}

/// Which pattern is no regular expression.
#[derive(Clone, Copy, Debug, PartialEq, Eq, Structural)]
pub enum BadPattern {
    CommandMatch,
    CommandParse,
}

/// Whether an optional pattern can be compiled. One that is not there can.
pub open spec fn opt_compiles(pattern: Option<Seq<char>>) -> bool {
    match pattern {
        Some(p) => regex_compiles(p),
        None => true,
    }
}

/// The two patterns of the bridge: one that a message matches if it is a command, and one whose
/// groups are the words of a command.
pub struct Commands {
    command_regex: Option<(Regex, Option<Regex>)>,
}

/// What [`Commands`] holds: the first pattern and the second, both only where there is a first.
pub type CommandsView = Option<(Seq<char>, Option<Seq<char>>)>;

/// The pattern of an optional regular expression.
pub closed spec fn opt_pattern(regex: Option<Regex>) -> Option<Seq<char>> {
    match regex {
        Some(r) => Some(regex_pattern(r)),
        None => None,
    }
}

impl View for Commands {
    type V = CommandsView;

    closed spec fn view(&self) -> CommandsView {
        match self.command_regex {
            Some((matcher, parser)) => Some((regex_pattern(matcher), opt_pattern(parser))),
            None => None,
        }
    }
}

/// The patterns that are in use: none at all without the first.
pub open spec fn patterns_in_use(
    command_match: Option<Seq<char>>,
    command_parse: Option<Seq<char>>,
) -> CommandsView {
    match command_match {
        Some(m) => Some((m, command_parse)),
        None => None,
    }
}

/// The command that a message is, under given patterns.
pub open spec fn command_under(patterns: CommandsView, content: Seq<char>) -> Option<
    Seq<Seq<char>>,
> {
    match patterns {
        Some((matcher, parser)) => command_from(
            regex_matches(matcher, content),
            match parser {
                Some(p) => Some(regex_captures(p, content)),
                None => None,
            },
        ),
        None => None,
    }
}

/// Compiles an optional pattern that is known to be good.
fn compile_good(pattern: &Option<String>) -> (r: Option<Regex>)
    requires
        opt_compiles(opt_text(*pattern)),
    ensures
        opt_pattern(r) == opt_text(*pattern),
{
    match pattern {
        Some(p) => Some(compile(p.as_str()).unwrap()),
        None => None,
    }
}

/// Whether an optional pattern can be compiled.
fn can_compile(pattern: &Option<String>) -> (r: bool)
    ensures
        r == opt_compiles(opt_text(*pattern)),
{
    match pattern {
        Some(p) => compile(p.as_str()).is_some(),
        None => true,
    }
}

impl Commands {
    /// Compiles the patterns.
    pub fn new(command_match: Option<String>, command_parse: Option<String>) -> (r: Self)
        requires
            opt_compiles(opt_text(command_match)),
            opt_compiles(opt_text(command_parse)),
        ensures
            r@ == patterns_in_use(
                opt_text(command_match),
                opt_text(command_parse),
            ),
    {
        let matcher: Option<Regex> = compile_good(&command_match);
        let parser: Option<Regex> = compile_good(&command_parse);
        match matcher {
            Some(m) => Commands { command_regex: Some((m, parser)) },
            None => Commands { command_regex: None },
        }
    }

    /// Looks for the first pattern that is no regular expression.
    pub fn bad_pattern(command_match: &Option<String>, command_parse: &Option<String>) -> (r: Option<
        BadPattern,
    >)
        ensures
            r == (if !opt_compiles(opt_text(*command_match)) {
                Some(BadPattern::CommandMatch)
            } else if !opt_compiles(opt_text(*command_parse)) {
                Some(BadPattern::CommandParse)
            } else {
                None
            }),
    {
        if !can_compile(command_match) {
            Some(BadPattern::CommandMatch)
        } else if !can_compile(command_parse) {
            Some(BadPattern::CommandParse)
        } else {
            None
        }
    }

    /// The words of the command that a message is, if it is one.
    pub fn parse_command(&self, content: &str) -> (r: Option<Vec<String>>)
        ensures
            opt_texts(r) == command_under(self@, content@),
    {
        match &self.command_regex {
            Some((matcher, parser)) => {
                if !is_match(matcher, content) {
                    assemble_command(false, None)
                } else {
                    match parser {
                        Some(p) => assemble_command(true, Some(captures(p, content))),
                        None => assemble_command(true, None),
                    }
                }
            },
            None => None,
        }
    }
}

} // verus!
