use vstd::prelude::*;

use crate::event::{sub_system_of_name, StorageSubSystem};
use crate::text::{has_prefix, same_text, text_of};

verus! {

#[verifier::external_type_specification]
#[verifier::external_body]
pub struct ExRegex(regex::Regex);

#[verifier::external_type_specification]
#[verifier::external_body]
pub struct ExRegexError(regex::Error);

/// Whether the regex crate accepts `pattern`.
pub uninterp spec fn pattern_compiles(pattern: Seq<char>) -> bool;

/// The capture groups of the first match of `pattern` in `text`, in group
/// order: each group's name, if it has one, and the text it matched, if it
/// took part in the match. `None` when the pattern does not match.
pub uninterp spec fn capture_groups(pattern: Seq<char>, text: Seq<char>) -> Option<
    Seq<(Option<Seq<char>>, Option<Seq<char>>)>,
>;

/// Relies on regex::Regex::new: whether it succeeds depends on the pattern
/// alone.
#[verifier::external_body]
fn compile_pattern(pattern: &str) -> (r: Result<regex::Regex, regex::Error>)
    ensures
        r is Ok <==> pattern_compiles(pattern@),
{
    regex::Regex::new(pattern)
}

/// One capture group as plain texts.
pub open spec fn group_view(g: (Option<String>, Option<String>)) -> (
    Option<Seq<char>>,
    Option<Seq<char>>,
) {
    (
        match g.0 {
            Some(n) => Some(n@),
            None => None,
        },
        match g.1 {
            Some(t) => Some(t@),
            None => None,
        },
    )
}

/// Capture groups as plain texts.
pub open spec fn groups_view(v: Seq<(Option<String>, Option<String>)>) -> Seq<
    (Option<Seq<char>>, Option<Seq<char>>),
> {
    v.map_values(|g: (Option<String>, Option<String>)| group_view(g))
}

/// A user's description of one dispatch rule, before compilation.
#[derive(Debug, Clone)]
pub struct RegexConfSource {
    pub regex: String,
    pub starts_with: Option<String>,
    pub sub_system: String,
    pub event_type: String,
}

/// A rule's description as plain values.
pub struct SourceView {
    pub regex: Seq<char>,
    pub starts_with: Option<Seq<char>>,
    pub sub_system: Seq<char>,
    pub event_type: Seq<char>,
}

impl View for RegexConfSource {
    type V = SourceView;

    open spec fn view(&self) -> SourceView {
        SourceView {
            regex: self.regex@,
            starts_with: match self.starts_with {
                Some(p) => Some(p@),
                None => None,
            },
            sub_system: self.sub_system@,
            event_type: self.event_type@,
        }
    }
}

/// Rule descriptions as plain values.
pub open spec fn sources_view(v: Seq<RegexConfSource>) -> Seq<SourceView> {
    v.map_values(|s: RegexConfSource| s@)
}

/// Why a rule could not be installed.
#[derive(Debug, Clone, Copy, PartialEq, Eq, Structural)]
pub enum ConfError {
    /// The pattern is not a valid regular expression.
    RegexCompile,
    /// The subsystem name is not known.
    InvalidEnum,
}

/// A regular expression together with its source text. The compiled regex
/// is always the one built from `text`: only `CompiledPattern::new` makes
/// one.
pub struct CompiledPattern {
    text: String,
    regex: regex::Regex,
}

/// Relies on regex::Regex::captures, Regex::capture_names and
/// Captures::iter: the groups of the first match, each with its name, in
/// group order.
#[verifier::external_body]
fn regex_capture_groups(p: &CompiledPattern, text: &str) -> (r: Option<
    Vec<(Option<String>, Option<String>)>,
>)
    ensures
        match r {
            Some(v) => capture_groups(p@, text@) == Some(groups_view(v@)),
            None => capture_groups(p@, text@) is None,
        },
{
    let re = &p.regex;
    re.captures(text).map(
        |cap|
            re.capture_names().zip(cap.iter()).map(
                |(n, m)| (n.map(|n| n.to_string()), m.map(|m| m.as_str().to_string())),
            ).collect(),
    )
}

impl View for CompiledPattern {
    type V = Seq<char>;

    closed spec fn view(&self) -> Seq<char> {
        self.text@
    }
}

impl CompiledPattern {
    /// Compiles `text`; `None` when it is not a valid regular expression.
    pub fn new(text: &str) -> (r: Option<CompiledPattern>)
        ensures
            r is Some <==> pattern_compiles(text@),
            r matches Some(p) ==> p@ == text@,
    {
        match compile_pattern(text) {
            Ok(regex) => {
                let p = CompiledPattern { text: text_of(text), regex };
                proof {
                    assert(p@ == text@);
                }
                Some(p)
            },
            Err(_) => None,
        }
    }

    /// The capture groups of the first match in `text`.
    pub fn captures(&self, text: &str) -> (r: Option<Vec<(Option<String>, Option<String>)>>)
        ensures
            match r {
                Some(v) => capture_groups(self@, text@) == Some(groups_view(v@)),
                None => capture_groups(self@, text@) is None,
            },
    {
        regex_capture_groups(self, text)
    }
}

/// The text of the first group named `name`, if it took part in the match.
pub open spec fn named_group(g: Seq<(Option<Seq<char>>, Option<Seq<char>>)>, name: Seq<char>) -> Option<
    Seq<char>,
>
    decreases g.len(),
{
    if g.len() == 0 {
        None
    } else if g[0].0 == Some(name) {
        g[0].1
    } else {
        named_group(g.drop_first(), name)
    }
}

/// The text of the first group named `name`, if it took part in the match.
pub fn group_text(g: &Vec<(Option<String>, Option<String>)>, name: &str) -> (r: Option<String>)
    ensures
        match r {
            Some(t) => named_group(groups_view(g@), name@) == Some(t@),
            None => named_group(groups_view(g@), name@) is None,
        },
{
    let ghost gv = groups_view(g@);
    proof {
        assert(gv.subrange(0, gv.len() as int) =~= gv);
    }
    let mut i: usize = 0;
    while i < g.len()
        invariant
            i <= g@.len(),
            gv == groups_view(g@),
            named_group(gv, name@) == named_group(gv.subrange(i as int, gv.len() as int), name@),
        decreases g@.len() - i,
    {
        proof {
            assert(gv.subrange(i as int, gv.len() as int).drop_first() =~= gv.subrange(
                i + 1,
                gv.len() as int,
            ));
        }
        if let Some(n) = &g[i].0 {
            if same_text(n.as_str(), name) {
                return match &g[i].1 {
                    Some(t) => Some(text_of(t.as_str())),
                    None => None,
                };
            }
        }
        i = i + 1;
    }
    None
}

/// A compiled dispatch rule.
pub struct RegexConf {
    regex: CompiledPattern,
    starts_with: Option<String>,
    sub_system: StorageSubSystem,
    event_type: String,
}

/// What a dispatch rule says, as plain values.
pub struct RuleView {
    pub pattern: Seq<char>,
    pub starts_with: Option<Seq<char>>,
    pub sub_system: StorageSubSystem,
    pub event_type: Seq<char>,
}

/// The outcome of compiling `src`.
pub open spec fn compile_outcome(src: SourceView) -> Result<RuleView, ConfError> {
    match sub_system_of_name(src.sub_system) {
        None => Err(ConfError::InvalidEnum),
        Some(sub) => if !pattern_compiles(src.regex) {
            Err(ConfError::RegexCompile)
        } else {
            Ok(
                RuleView {
                    pattern: src.regex,
                    starts_with: src.starts_with,
                    sub_system: sub,
                    event_type: src.event_type,
                },
            )
        },
    }
}

/// The groups a rule captures from `msg`: none when a declared prefix is
/// missing from `msg`, else those of its pattern.
pub open spec fn rule_captures(r: RuleView, msg: Seq<char>) -> Option<
    Seq<(Option<Seq<char>>, Option<Seq<char>>)>,
> {
    match r.starts_with {
        Some(p) => if p.is_prefix_of(msg) {
            capture_groups(r.pattern, msg)
        } else {
            None
        },
        None => capture_groups(r.pattern, msg),
    }
}

/// A rule that declares a literal prefix matches no text that lacks it.
pub proof fn lemma_prefix_guards_match(r: RuleView, msg: Seq<char>)
    requires
        r.starts_with matches Some(p) && !p.is_prefix_of(msg),
    ensures
        rule_captures(r, msg) is None,
{
}

impl View for RegexConf {
    type V = RuleView;

    closed spec fn view(&self) -> RuleView {
        RuleView {
            pattern: self.regex@,
            starts_with: match self.starts_with {
                Some(p) => Some(p@),
                None => None,
            },
            sub_system: self.sub_system,
            event_type: self.event_type@,
        }
    }
}

impl RegexConf {
    /// Compiles a rule; fails on an unknown subsystem name or a pattern that
    /// does not compile.
    pub fn new(src: &RegexConfSource) -> (r: Result<RegexConf, ConfError>)
        ensures
            match r {
                Ok(c) => compile_outcome(src@) == Ok::<RuleView, ConfError>(c@),
                Err(e) => compile_outcome(src@) == Err::<RuleView, ConfError>(e),
            },
    {
        let sub = match StorageSubSystem::parse(src.sub_system.as_str()) {
            Some(s) => s,
            None => return Err(ConfError::InvalidEnum),
        };
        let regex = match CompiledPattern::new(src.regex.as_str()) {
            Some(p) => p,
            None => return Err(ConfError::RegexCompile),
        };
        let starts_with = match &src.starts_with {
            Some(p) => Some(text_of(p.as_str())),
            None => None,
        };
        let c = RegexConf {
            regex,
            starts_with,
            sub_system: sub,
            event_type: text_of(src.event_type.as_str()),
        };
        proof {
            assert(c@ == compile_outcome(src@)->Ok_0);
        }
        Ok(c)
    }

    /// The subsystem the rule tags its events with.
    pub fn sub_system(&self) -> (r: StorageSubSystem)
        ensures
            r == self@.sub_system,
    {
        self.sub_system
    }

    /// The event-type label the rule gives its events.
    pub fn event_type(&self) -> (r: &String)
        ensures
            r@ == self@.event_type,
    {
        &self.event_type
    }

    /// The capture groups of the rule on `msg`, after the prefix test.
    pub fn captures(&self, msg: &str) -> (r: Option<Vec<(Option<String>, Option<String>)>>)
        ensures
            match r {
                Some(v) => rule_captures(self@, msg@) == Some(groups_view(v@)),
                None => rule_captures(self@, msg@) is None,
            },
    {
        if let Some(p) = &self.starts_with {
            if !has_prefix(msg, p.as_str()) {
                return None;
            }
        }
        self.regex.captures(msg)
    }
}

} // verus!
