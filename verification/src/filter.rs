//! The ignore/filter engine.
//!
//! A [`FilterPredicate`] is a set of glob patterns built once at startup:
//! the built-in exclusions plus any rules read from project ignore files.
//! A path is excluded as soon as any one pattern matches it — rules only
//! accumulate exclusions, they never override each other. Matching a
//! single pattern against a path is delegated to the `globset` crate; the
//! result is named by the uninterpreted function [`glob_match`], and the
//! any-rule accumulation over it is verified here.

use vstd::prelude::*;

use crate::events::ChangeKind;

verus! {

/// Whether glob pattern `pattern` matches path `path`, as `globset`
/// decides it: a pure function of the two strings.
pub uninterp spec fn glob_match(pattern: Seq<char>, path: Seq<char>) -> bool;

/// Relies on globset: whether `path` matches the glob `pattern`, with
/// globset's default options. The pattern is parsed by `globset::Glob::new`
/// and compiled by `globset::GlobSetBuilder::build`; both return an error
/// rather than panicking, even on an oversized pattern, and a pattern that
/// fails to parse or to compile matches nothing.
#[verifier::external_body]
fn glob_matches(pattern: &String, path: &String) -> (r: bool)
    ensures
        r == glob_match(pattern@, path@),
{
    let mut builder = globset::GlobSetBuilder::new();
    match globset::Glob::new(pattern.as_str()) {
        Ok(glob) => {
            builder.add(glob);
            match builder.build() {
                Ok(set) => set.is_match(path.as_str()),
                Err(_) => false,
            }
        },
        Err(_) => false,
    }
}

/// The built-in exclusions, with `sep` as the path separator: OS metadata
/// files, editor swap/backup files, version-control directories, database
/// and journal files, the build output directory, and crash-report
/// artifacts.
pub fn builtin_ignore_patterns(sep: &str) -> (r: Vec<String>)
    ensures
        r@.len() == 14,
        r@[0]@ == "*"@ + sep@ + ".DS_Store"@,
        r@[1]@ == "*.sw?"@,
        r@[2]@ == "*.sw?x"@,
        r@[3]@ == "#*#"@,
        r@[4]@ == ".#*"@,
        r@[5]@ == ".*.kate-swp"@,
        r@[6]@ == "*"@ + sep@ + ".hg"@ + sep@ + "**"@,
        r@[7]@ == "*"@ + sep@ + ".git"@ + sep@ + "**"@,
        r@[8]@ == "*"@ + sep@ + ".svn"@ + sep@ + "**"@,
        r@[9]@ == "*.db"@,
        r@[10]@ == "*.db-*"@,
        r@[11]@ == "*"@ + sep@ + "*.db-journal"@ + sep@ + "**"@,
        r@[12]@ == "*"@ + sep@ + "target"@ + sep@ + "**"@,
        r@[13]@ == "rustc-ice-*.txt"@,
{
    let mut r: Vec<String> = Vec::new();
    let mut p = String::from_str("*");
    p.append(sep);
    p.append(".DS_Store");
    r.push(p);
    r.push(String::from_str("*.sw?"));
    r.push(String::from_str("*.sw?x"));
    r.push(String::from_str("#*#"));
    r.push(String::from_str(".#*"));
    r.push(String::from_str(".*.kate-swp"));
    let mut p = String::from_str("*");
    p.append(sep);
    p.append(".hg");
    p.append(sep);
    p.append("**");
    r.push(p);
    let mut p = String::from_str("*");
    p.append(sep);
    p.append(".git");
    p.append(sep);
    p.append("**");
    r.push(p);
    let mut p = String::from_str("*");
    p.append(sep);
    p.append(".svn");
    p.append(sep);
    p.append("**");
    r.push(p);
    r.push(String::from_str("*.db"));
    r.push(String::from_str("*.db-*"));
    let mut p = String::from_str("*");
    p.append(sep);
    p.append("*.db-journal");
    p.append(sep);
    p.append("**");
    r.push(p);
    let mut p = String::from_str("*");
    p.append(sep);
    p.append("target");
    p.append(sep);
    p.append("**");
    r.push(p);
    r.push(String::from_str("rustc-ice-*.txt"));
    r
}

/// The accumulated ignore rules, built once at startup and immutable
/// thereafter.
pub struct FilterPredicate {
    /// The glob patterns; a path matching any one of them is excluded.
    pub rules: Vec<String>,
}

impl FilterPredicate {
    /// Whether `path` is excluded: some rule matches it.
    pub open spec fn spec_excluded(&self, path: Seq<char>) -> bool {
        exists|i: int| 0 <= i < self.rules@.len() && glob_match(self.rules@[i]@, path)
    }

    /// Whether a change at `path` passes the filter (no rule matches);
    /// rules apply to every change kind alike.
    pub open spec fn spec_matches(&self, path: Seq<char>) -> bool {
        !self.spec_excluded(path)
    }

    /// An empty rule set: every path passes.
    pub fn new() -> (r: Self)
        ensures
            r.rules@.len() == 0,
    {
        FilterPredicate { rules: Vec::new() }
    }

    /// Add one source of rules; exclusions only accumulate.
    pub fn add_rules(&mut self, rules: Vec<String>)
        ensures
            final(self).rules@ == old(self).rules@ + rules@,
    {
        let mut rules = rules;
        self.rules.append(&mut rules);
    }

    /// Whether a change of kind `kind` at `path` is included, that is,
    /// matches no rule from any source; rules apply to every change kind
    /// alike.
    pub fn matches(&self, path: &String, _kind: ChangeKind) -> (r: bool)
        ensures
            r == self.spec_matches(path@),
    {
        let mut i: usize = 0;
        while i < self.rules.len()
            invariant
                0 <= i <= self.rules@.len(),
                forall|j: int| 0 <= j < i ==> !glob_match(self.rules@[j]@, path@),
            decreases self.rules@.len() - i,
        {
            if glob_matches(&self.rules[i], path) {
                return false;
            }
            i += 1;
        }
        true
    }
}

/// Rules from different sources never override each other, they only
/// accumulate exclusions: whatever a rule set excludes stays excluded
/// after further rules are added.
pub proof fn lemma_rules_only_accumulate(a: FilterPredicate, b: FilterPredicate, path: Seq<char>)
    requires
        a.rules@.is_prefix_of(b.rules@),
    ensures
        a.spec_excluded(path) ==> b.spec_excluded(path),
{
    if a.spec_excluded(path) {
        let i = choose|i: int| 0 <= i < a.rules@.len() && glob_match(a.rules@[i]@, path);
        assert(b.rules@[i]@ == a.rules@[i]@);
        assert(glob_match(b.rules@[i]@, path));
    }
}

} // verus!
