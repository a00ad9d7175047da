//! The rule set: which folder each extension goes to.

use vstd::prelude::*;
use crate::text::{lowercase_of, str_eq, to_lowercase};

verus! {

/// One line of a rule set as its author wrote it: a folder and the
/// extensions that belong in it.
#[derive(Debug, Clone, PartialEq, Eq)]
pub struct FolderRule {
    pub folder: String,
    pub extensions: Vec<String>,
}

/// Why a rule set was turned down.
#[derive(Debug, Clone, PartialEq, Eq)]
pub enum ConfigError {
    /// A folder has the empty string for its name.
    UnnamedFolder,
    /// Two different folders claim the same extension.
    ConflictingExtension { extension: String, first: String, second: String },
}

/// Folder `i` of `folders` has an extension at place `j`.
pub open spec fn is_claim(folders: Seq<FolderRule>, i: int, j: int) -> bool {
    0 <= i < folders.len() && 0 <= j < folders[i].extensions.len()
}

/// The extension that folder `i` claims at place `j`, in lower case.
pub open spec fn claimed(folders: Seq<FolderRule>, i: int, j: int) -> Seq<char> {
    lowercase_of(folders[i].extensions[j]@)
}

/// Folder `i` claims the extension `e` at place `j`.
pub open spec fn claim_is(folders: Seq<FolderRule>, i: int, j: int, e: Seq<char>) -> bool {
    is_claim(folders, i, j) && claimed(folders, i, j) == e
}

/// Some folder of `folders` has the empty name.
pub open spec fn has_unnamed_folder(folders: Seq<FolderRule>) -> bool {
    exists|i: int| 0 <= i < folders.len() && (#[trigger] folders[i]).folder@.len() == 0
}

/// The claims at `(a, b)` and `(c, d)` are for one extension and two
/// different folders.
pub open spec fn conflict_at(folders: Seq<FolderRule>, a: int, b: int, c: int, d: int) -> bool {
    &&& is_claim(folders, a, b)
    &&& is_claim(folders, c, d)
    &&& claimed(folders, a, b) == claimed(folders, c, d)
    &&& folders[a].folder@ != folders[c].folder@
}

/// Two different folders of `folders` claim the same extension.
pub open spec fn has_conflict(folders: Seq<FolderRule>) -> bool {
    exists|a: int, b: int, c: int, d: int| #[trigger] conflict_at(folders, a, b, c, d)
}

/// `m` is the mapping that `folders` describe: it has an entry for exactly
/// the extensions that some folder claims, and gives each the folder that
/// claims it.
pub open spec fn is_rule_set_of(m: Map<Seq<char>, Seq<char>>, folders: Seq<FolderRule>) -> bool {
    &&& forall|e: Seq<char>| #[trigger]
        m.dom().contains(e) <==> exists|i: int, j: int| #[trigger] claim_is(folders, i, j, e)
    &&& forall|i: int, j: int|
        is_claim(folders, i, j) ==> m.dom().contains(#[trigger] claimed(folders, i, j)) && m[claimed(
            folders,
            i,
            j,
        )] == folders[i].folder@
}

/// The claims of `folders`, each as an extension and the folder that claims
/// it, without regard to where it is written.
pub open spec fn claims_of(folders: Seq<FolderRule>) -> Set<(Seq<char>, Seq<char>)> {
    Set::new(
        |claim: (Seq<char>, Seq<char>)|
            exists|i: int, j: int| #[trigger]
                claim_is(folders, i, j, claim.0) && folders[i].folder@ == claim.1,
    )
}

/// Place `(a, b)` comes before place `(i, j)` when the folders are read in
/// order, each with its extensions in order.
spec fn precedes(a: int, b: int, i: int, j: int) -> bool {
    a < i || (a == i && b < j)
}

/// `m` holds exactly the claims of `folders` before place `(i, j)`.
spec fn holds_claims_before(m: Map<Seq<char>, Seq<char>>, folders: Seq<FolderRule>, i: int, j: int) -> bool {
    &&& forall|a: int, b: int|
        is_claim(folders, a, b) && precedes(a, b, i, j) ==> m.dom().contains(
            #[trigger] claimed(folders, a, b),
        ) && m[claimed(folders, a, b)] == folders[a].folder@
    &&& forall|e: Seq<char>| #[trigger]
        m.dom().contains(e) ==> exists|a: int, b: int|
            #[trigger] claim_is(folders, a, b, e) && precedes(a, b, i, j)
}

/// One entry of the inverted rule set.
struct ExtensionRule {
    extension: String,
    folder: String,
}

/// A loaded rule set: a mapping from extension to folder.
///
/// No extension occurs twice and no folder name is empty, so looking an
/// extension up has one answer, whatever the order in which the rules were
/// written.
pub struct RuleConfig {
    rules: Vec<ExtensionRule>,
}

impl View for RuleConfig {
    type V = Map<Seq<char>, Seq<char>>;

    closed spec fn view(&self) -> Map<Seq<char>, Seq<char>> {
        Map::new(
            |e: Seq<char>| exists|k: int| self.holds_at(k, e),
            |e: Seq<char>| self.rules[choose|k: int| self.holds_at(k, e)].folder@,
        )
    }
}

impl RuleConfig {
    /// Entry `k` exists and is the one for extension `e`.
    closed spec fn holds_at(&self, k: int, e: Seq<char>) -> bool {
        0 <= k < self.rules.len() && self.rules[k].extension@ == e
    }

    /// Validity: no extension has two entries, and every folder has a name.
    pub closed spec fn wf(&self) -> bool {
        &&& forall|a: int, b: int|
            0 <= a < b < self.rules.len() ==> self.rules[a].extension@ != self.rules[b].extension@
        &&& forall|k: int| 0 <= k < self.rules.len() ==> (#[trigger] self.rules[k]).folder@.len() > 0
    }

    /// The rule set without any rule.
    pub fn new() -> (config: RuleConfig)
        ensures
            config@ == Map::<Seq<char>, Seq<char>>::empty(),
            config.wf(),
    {
        let config = RuleConfig { rules: Vec::new() };
        config
    }

    /// The folder that the rule set gives for `ext`, if it has a rule for it.
    pub fn lookup<'a>(&'a self, ext: &str) -> (found: Option<&'a str>)
        requires
            self.wf(),
        ensures
            found is Some <==> self@.dom().contains(ext@),
            found matches Some(folder) ==> folder@ == self@[ext@] && folder@.len() > 0,
    {
        let mut i: usize = 0;
        while i < self.rules.len()
            invariant
                i <= self.rules.len(),
                self.wf(),
                forall|k: int| 0 <= k < i ==> !self.holds_at(k, ext@),
            decreases self.rules.len() - i,
        {
            if str_eq(self.rules[i].extension.as_str(), ext) {
                assert(self.holds_at(i as int, ext@));
                return Some(self.rules[i].folder.as_str());
            }
            i += 1;
        }
        None
    }

    /// Adds the rule that `extension` goes to `folder`.
    ///
    /// A claim that repeats an existing rule changes nothing. A claim that
    /// contradicts one, or that names no folder, is refused and changes
    /// nothing either.
    pub fn claim(&mut self, extension: String, folder: String) -> (result: Result<(), ConfigError>)
        requires
            old(self).wf(),
        ensures
            final(self).wf(),
            match result {
                Ok(()) => {
                    &&& folder@.len() > 0
                    &&& old(self)@.dom().contains(extension@) ==> old(self)@[extension@] == folder@
                    &&& final(self)@ == old(self)@.insert(extension@, folder@)
                },
                Err(ConfigError::UnnamedFolder) => {
                    &&& folder@.len() == 0
                    &&& final(self)@ == old(self)@
                },
                Err(ConfigError::ConflictingExtension { extension: e, first, second }) => {
                    &&& folder@.len() > 0
                    &&& old(self)@.dom().contains(extension@)
                    &&& old(self)@[extension@] != folder@
                    &&& e@ == extension@
                    &&& first@ == old(self)@[extension@]
                    &&& second@ == folder@
                    &&& final(self)@ == old(self)@
                },
            },
    {
        if folder.as_str().is_empty() {
            return Err(ConfigError::UnnamedFolder);
        }
        match self.lookup(extension.as_str()) {
            Some(existing) => {
                if str_eq(existing, folder.as_str()) {
                    Ok(())
                } else {
                    let first = existing.to_owned();
                    Err(ConfigError::ConflictingExtension { extension, first, second: folder })
                }
            },
            None => {
                let ghost before = *self;
                let ghost e = extension@;
                let ghost f = folder@;
                let rule = ExtensionRule { extension, folder };
                let ghost added = rule;
                self.rules.push(rule);
                proof {
                    let n = before.rules.len() as int;
                    assert(self.rules@[n] == added);
                    assert forall|a: int, b: int| 0 <= a < b < self.rules.len() implies self.rules[a].extension@
                        != self.rules[b].extension@ by {
                        if b == n {
                            assert(!before.holds_at(a, e));
                        }
                    }
                    assert forall|x: Seq<char>|
                        self@.dom().contains(x) <==> before@.insert(e, f).dom().contains(x) by {
                        if self@.dom().contains(x) {
                            let k = choose|k: int| self.holds_at(k, x);
                            if k < n {
                                assert(before.holds_at(k, x));
                            }
                        }
                        if before@.dom().contains(x) {
                            let k = choose|k: int| before.holds_at(k, x);
                            assert(self.holds_at(k, x));
                        }
                        if x == e {
                            assert(self.holds_at(n, x));
                        }
                    }
                    assert forall|x: Seq<char>| #[trigger]
                        self@.dom().contains(x) implies self@[x] == before@.insert(e, f)[x] by {
                        let k = choose|k: int| self.holds_at(k, x);
                        if x != e {
                            // No extension has two entries, so the entry chosen
                            // for `x` before the push is the one chosen after it.
                            let j = choose|j: int| before.holds_at(j, x);
                            assert(self.holds_at(j, x) && before.holds_at(k, x));
                        }
                    }
                }
                Ok(())
            },
        }
    }

    /// Builds the rule set from the folders as written: each extension, in
    /// lower case, is mapped to the folder that claims it.
    ///
    /// The folders are turned down if one of them has no name, or if two
    /// different ones claim the same extension. A claim that is repeated for
    /// the same folder is harmless.
    pub fn from_folders(folders: &Vec<FolderRule>) -> (result: Result<RuleConfig, ConfigError>)
        ensures
            match result {
                Ok(config) => {
                    &&& config.wf()
                    &&& !has_unnamed_folder(folders@)
                    &&& !has_conflict(folders@)
                    &&& is_rule_set_of(config@, folders@)
                },
                Err(ConfigError::UnnamedFolder) => has_unnamed_folder(folders@),
                Err(ConfigError::ConflictingExtension { extension, first, second }) => {
                    &&& !has_unnamed_folder(folders@)
                    &&& exists|a: int, b: int, c: int, d: int|
                        {
                            &&& #[trigger] conflict_at(folders@, a, b, c, d)
                            &&& extension@ == claimed(folders@, a, b)
                            &&& first@ == folders@[a].folder@
                            &&& second@ == folders@[c].folder@
                        }
                },
            },
    {
        let mut n: usize = 0;
        while n < folders.len()
            invariant
                n <= folders.len(),
                forall|k: int| 0 <= k < n ==> (#[trigger] folders@[k]).folder@.len() > 0,
            decreases folders.len() - n,
        {
            if folders[n].folder.as_str().is_empty() {
                return Err(ConfigError::UnnamedFolder);
            }
            n += 1;
        }
        let mut config = RuleConfig::new();
        let mut i: usize = 0;
        while i < folders.len()
            invariant
                i <= folders.len(),
                config.wf(),
                !has_unnamed_folder(folders@),
                holds_claims_before(config@, folders@, i as int, 0),
            decreases folders.len() - i,
        {
            let rule = &folders[i];
            let mut j: usize = 0;
            while j < rule.extensions.len()
                invariant
                    i < folders.len(),
                    *rule == folders@[i as int],
                    j <= rule.extensions.len(),
                    config.wf(),
                    !has_unnamed_folder(folders@),
                    holds_claims_before(config@, folders@, i as int, j as int),
                decreases rule.extensions.len() - j,
            {
                let ghost before = config@;
                let extension = to_lowercase(rule.extensions[j].as_str());
                let folder = rule.folder.clone();
                assert(extension@ == claimed(folders@, i as int, j as int));
                assert(is_claim(folders@, i as int, j as int));
                match config.claim(extension, folder) {
                    Ok(()) => {
                        proof {
                            let e = claimed(folders@, i as int, j as int);
                            assert(claim_is(folders@, i as int, j as int, e));
                            assert forall|x: Seq<char>| #[trigger]
                                config@.dom().contains(x) implies exists|a: int, b: int|
                                #[trigger] claim_is(folders@, a, b, x) && precedes(
                                    a,
                                    b,
                                    i as int,
                                    j + 1,
                                ) by {
                                if x != e {
                                    assert(before.dom().contains(x));
                                    let (a, b) = choose|a: int, b: int|
                                        #[trigger] claim_is(folders@, a, b, x) && precedes(
                                            a,
                                            b,
                                            i as int,
                                            j as int,
                                        );
                                    assert(claim_is(folders@, a, b, x) && precedes(a, b, i as int, j + 1));
                                }
                            }
                        }
                    },
                    Err(error) => {
                        proof {
                            let e = claimed(folders@, i as int, j as int);
                            assert(before.dom().contains(e));
                            let (a, b) = choose|a: int, b: int|
                                #[trigger] claim_is(folders@, a, b, e) && precedes(
                                    a,
                                    b,
                                    i as int,
                                    j as int,
                                );
                            assert(before[claimed(folders@, a, b)] == folders@[a].folder@);
                            assert(conflict_at(folders@, a, b, i as int, j as int));
                        }
                        return Err(error);
                    },
                }
                j += 1;
            }
            assert(holds_claims_before(config@, folders@, i + 1, 0)) by {
                assert forall|a: int, b: int|
                    is_claim(folders@, a, b) && precedes(a, b, i + 1, 0) implies precedes(
                    a,
                    b,
                    i as int,
                    j as int,
                ) by {}
                assert forall|a: int, b: int| precedes(a, b, i as int, j as int) implies precedes(
                    a,
                    b,
                    i + 1,
                    0,
                ) by {}
            }
            i += 1;
        }
        proof {
            let m = config@;
            let all = folders@;
            assert forall|a: int, b: int| is_claim(all, a, b) implies precedes(a, b, i as int, 0) by {}
            assert(!has_conflict(all)) by {
                if has_conflict(all) {
                    let (a, b, c, d) = choose|a: int, b: int, c: int, d: int| #[trigger]
                        conflict_at(all, a, b, c, d);
                    assert(m[claimed(all, a, b)] == all[a].folder@);
                    assert(m[claimed(all, c, d)] == all[c].folder@);
                }
            }
            assert forall|e: Seq<char>| #[trigger] m.dom().contains(e) <==> exists|i: int, j: int| #[trigger]
                    claim_is(all, i, j, e) by {
                if exists|i: int, j: int| #[trigger] claim_is(all, i, j, e) {
                    let (a, b) = choose|i: int, j: int| #[trigger] claim_is(all, i, j, e);
                    assert(m.dom().contains(claimed(all, a, b)));
                }
            }
        }
        Ok(config)
    }
}

/// The folder of the built-in table for `ext`: pictures, music and documents
/// by their usual extensions, and `other` for everything else.
pub open spec fn builtin_folder(ext: Seq<char>) -> Seq<char> {
    if ext == "png"@ || ext == "jpg"@ || ext == "jpeg"@ {
        "images"@
    } else if ext == "mp3"@ || ext == "wav"@ || ext == "m4a"@ {
        "music"@
    } else if ext == "pdf"@ || ext == "doc"@ || ext == "docx"@ || ext == "txt"@ {
        "documents"@
    } else {
        "other"@
    }
}

/// Whether the built-in table has a folder of its own for `ext`.
pub open spec fn builtin_covers(ext: Seq<char>) -> bool {
    ||| ext == "png"@ || ext == "jpg"@ || ext == "jpeg"@
    ||| ext == "mp3"@ || ext == "wav"@ || ext == "m4a"@
    ||| ext == "pdf"@ || ext == "doc"@ || ext == "docx"@ || ext == "txt"@
}

/// The folder for `ext` under an optional rule set: the rule set's answer
/// where it has one, the built-in table's otherwise.
pub open spec fn resolved_folder(ext: Seq<char>, rules: Option<Map<Seq<char>, Seq<char>>>) -> Seq<char> {
    match rules {
        Some(m) => if m.dom().contains(ext) { m[ext] } else { builtin_folder(ext) },
        None => builtin_folder(ext),
    }
}

/// The view of an optional rule set.
pub open spec fn rules_of(config: Option<&RuleConfig>) -> Option<Map<Seq<char>, Seq<char>>> {
    match config {
        Some(c) => Some(c@),
        None => None,
    }
}

/// Looks `ext` up in the built-in table.
pub fn builtin_folder_for(ext: &str) -> (folder: &'static str)
    ensures
        folder@ == builtin_folder(ext@),
        folder@.len() > 0,
{
    proof {
        reveal_strlit("images");
        reveal_strlit("music");
        reveal_strlit("documents");
        reveal_strlit("other");
    }
    if str_eq(ext, "png") || str_eq(ext, "jpg") || str_eq(ext, "jpeg") {
        "images"
    } else if str_eq(ext, "mp3") || str_eq(ext, "wav") || str_eq(ext, "m4a") {
        "music"
    } else if str_eq(ext, "pdf") || str_eq(ext, "doc") || str_eq(ext, "docx") || str_eq(ext, "txt") {
        "documents"
    } else {
        "other"
    }
}

/// Chooses the folder for a file with extension `ext`.
///
/// A rule of `config` for `ext` decides; without one, or without a rule set,
/// the built-in table does. The folder's name is never empty.
pub fn folder_for_extension<'a>(ext: &str, config: Option<&'a RuleConfig>) -> (folder: &'a str)
    requires
        config matches Some(c) ==> c.wf(),
    ensures
        folder@ == resolved_folder(ext@, rules_of(config)),
        folder@.len() > 0,
{
    if let Some(c) = config {
        if let Some(folder) = c.lookup(ext) {
            return folder;
        }
    }
    builtin_folder_for(ext)
}

/// Without a rule set, each extension of the built-in table goes to the
/// table's folder for it: pictures to `images`, sound to `music`, texts to
/// `documents`.
pub proof fn law_builtin_without_rules(ext: Seq<char>)
    ensures
        ext == "png"@ || ext == "jpg"@ || ext == "jpeg"@ ==> resolved_folder(ext, None) == "images"@,
        ext == "mp3"@ || ext == "wav"@ || ext == "m4a"@ ==> resolved_folder(ext, None) == "music"@,
        ext == "pdf"@ || ext == "doc"@ || ext == "docx"@ || ext == "txt"@ ==> resolved_folder(ext, None)
            == "documents"@,
{
    reveal_strlit("png");
    reveal_strlit("jpg");
    reveal_strlit("jpeg");
    reveal_strlit("mp3");
    reveal_strlit("wav");
    reveal_strlit("m4a");
    reveal_strlit("pdf");
    reveal_strlit("doc");
    reveal_strlit("docx");
    reveal_strlit("txt");
    assert("png"@[0] == 'p' && "png"@[1] == 'n');
    assert("jpg"@[0] == 'j' && "jpeg"@[0] == 'j');
    assert("mp3"@[0] == 'm' && "wav"@[0] == 'w' && "m4a"@[0] == 'm');
}

/// An extension that neither the rule set nor the built-in table covers goes
/// to `other`.
pub proof fn law_uncovered_is_other(ext: Seq<char>, rules: Option<Map<Seq<char>, Seq<char>>>)
    requires
        !builtin_covers(ext),
        rules matches Some(m) ==> !m.dom().contains(ext),
    ensures
        resolved_folder(ext, rules) == "other"@,
{
}

/// A rule of the rule set decides, whatever the built-in table says of the
/// same extension.
pub proof fn law_rules_take_precedence(ext: Seq<char>, m: Map<Seq<char>, Seq<char>>)
    requires
        m.dom().contains(ext),
    ensures
        resolved_folder(ext, Some(m)) == m[ext],
{
}

/// In a rule set built from `folders`, an extension that a folder claims goes
/// to that folder, whatever the built-in table says of it.
pub proof fn law_claimed_extension_goes_to_its_folder(
    m: Map<Seq<char>, Seq<char>>,
    folders: Seq<FolderRule>,
    i: int,
    j: int,
)
    requires
        is_rule_set_of(m, folders),
        is_claim(folders, i, j),
    ensures
        resolved_folder(claimed(folders, i, j), Some(m)) == folders[i].folder@,
{
    assert(claim_is(folders, i, j, claimed(folders, i, j)));
}

/// The rule set does not depend on the order in which the folders and their
/// extensions are written: two lists that make the same claims give the same
/// rule set.
pub proof fn law_rule_set_ignores_order(
    m: Map<Seq<char>, Seq<char>>,
    folders: Seq<FolderRule>,
    other_m: Map<Seq<char>, Seq<char>>,
    other_folders: Seq<FolderRule>,
)
    requires
        is_rule_set_of(m, folders),
        is_rule_set_of(other_m, other_folders),
        claims_of(folders) == claims_of(other_folders),
    ensures
        m == other_m,
{
    assert forall|e: Seq<char>| m.dom().contains(e) implies other_m.dom().contains(e) && other_m[e]
        == m[e] by {
        lemma_claims_decide(m, folders, other_m, other_folders, e);
    }
    assert forall|e: Seq<char>| other_m.dom().contains(e) implies m.dom().contains(e) by {
        lemma_claims_decide(other_m, other_folders, m, folders, e);
    }
    assert(m =~= other_m);
}

proof fn lemma_claims_decide(
    m: Map<Seq<char>, Seq<char>>,
    folders: Seq<FolderRule>,
    other_m: Map<Seq<char>, Seq<char>>,
    other_folders: Seq<FolderRule>,
    e: Seq<char>,
)
    requires
        is_rule_set_of(m, folders),
        is_rule_set_of(other_m, other_folders),
        claims_of(folders) == claims_of(other_folders),
        m.dom().contains(e),
    ensures
        other_m.dom().contains(e),
        other_m[e] == m[e],
{
    let (i, j) = choose|i: int, j: int| #[trigger] claim_is(folders, i, j, e);
    assert(m[claimed(folders, i, j)] == folders[i].folder@);
    let claim = (e, folders[i].folder@);
    assert(claim_is(folders, i, j, claim.0) && folders[i].folder@ == claim.1);
    assert(claims_of(folders).contains(claim));
    assert(claims_of(other_folders).contains(claim));
    let (a, b) = choose|a: int, b: int| #[trigger]
        claim_is(other_folders, a, b, claim.0) && other_folders[a].folder@ == claim.1;
    assert(other_m[claimed(other_folders, a, b)] == other_folders[a].folder@);
}

/// Every folder of a valid rule set has a name.
pub proof fn law_rule_folders_are_named(config: RuleConfig, ext: Seq<char>)
    requires
        config.wf(),
        config@.dom().contains(ext),
    ensures
        config@[ext].len() > 0,
{
    let k = choose|k: int| config.holds_at(k, ext);
    assert(config.holds_at(k, ext));
}

} // verus!
