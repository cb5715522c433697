//! The alias table: a fixed list of command strings, each with its
//! short alias, built once at startup and read-only afterwards.

use vstd::prelude::*;
use vstd::string::StringExecFns;

use crate::text::lex_le;

verus! {

/// One alias-table entry as mathematics: the command and its alias as
/// sequences of characters.
pub struct EntryModel {
    pub command: Seq<char>,
    pub alias: Seq<char>,
}

/// A full command string together with the short alias that expands to it.
pub struct AliasEntry {
    pub command: String,
    pub alias: String,
}

impl View for AliasEntry {
    type V = EntryModel;

    open spec fn view(&self) -> EntryModel {
        EntryModel { command: self.command@, alias: self.alias@ }
    }
}

impl Clone for AliasEntry {
    fn clone(&self) -> (r: Self)
        ensures
            r == *self,
    {
        let r = AliasEntry { command: self.command.clone(), alias: self.alias.clone() };
        proof {
            assert(r == *self);
        }
        r
    }
}

/// The entries of a table, each reduced to its mathematical model.
pub open spec fn views(s: Seq<AliasEntry>) -> Seq<EntryModel> {
    s.map_values(|e: AliasEntry| e@)
}

/// Total order on entries: by command, and by alias between entries
/// whose commands are equal.
pub open spec fn entry_le(x: EntryModel, y: EntryModel) -> bool {
    if x.command == y.command {
        lex_le(x.alias, y.alias)
    } else {
        lex_le(x.command, y.command)
    }
}

/// The order above as a relation value, for use with vstd's sorting
/// vocabulary.
pub open spec fn entry_order() -> spec_fn(EntryModel, EntryModel) -> bool {
    |x: EntryModel, y: EntryModel| entry_le(x, y)
}

/// `entry_le` is a total order: reflexive, antisymmetric, transitive and
/// strongly connected.
pub proof fn lemma_entry_order_total()
    ensures
        vstd::relations::total_ordering(entry_order()),
{
    let leq = entry_order();
    assert forall|x: EntryModel| #[trigger] leq(x, x) by {
        crate::text::lemma_lex_le_reflexive(x.alias);
    }
    assert forall|x: EntryModel, y: EntryModel| #[trigger] leq(x, y) && #[trigger] leq(y, x)
        implies x == y by {
        if x.command == y.command {
            crate::text::lemma_lex_le_antisymmetric(x.alias, y.alias);
        } else {
            crate::text::lemma_lex_le_antisymmetric(x.command, y.command);
        }
    }
    assert forall|x: EntryModel, y: EntryModel, z: EntryModel|
        #[trigger] leq(x, y) && #[trigger] leq(y, z) implies leq(x, z) by {
        lemma_entry_le_transitive(x, y, z);
    }
    assert forall|x: EntryModel, y: EntryModel| #[trigger] leq(x, y) || #[trigger] leq(y, x) by {
        if x.command == y.command {
            crate::text::lemma_lex_le_connected(x.alias, y.alias);
        } else {
            crate::text::lemma_lex_le_connected(x.command, y.command);
        }
    }
}

proof fn lemma_entry_le_transitive(x: EntryModel, y: EntryModel, z: EntryModel)
    requires
        entry_le(x, y),
        entry_le(y, z),
    ensures
        entry_le(x, z),
{
    if x.command == y.command && y.command == z.command {
        crate::text::lemma_lex_le_transitive(x.alias, y.alias, z.alias);
    } else if x.command == y.command {
        // x and y share a command; the command step is from y to z.
    } else if y.command == z.command {
    } else {
        crate::text::lemma_lex_le_transitive(x.command, y.command, z.command);
        if x.command == z.command {
            crate::text::lemma_lex_le_connected(x.command, y.command);
            crate::text::lemma_lex_le_antisymmetric(x.command, y.command);
        }
    }
}

/// Compares two entries in the order of `entry_le`.
pub fn entry_le_exec(x: &AliasEntry, y: &AliasEntry) -> (r: bool)
    ensures
        r == entry_le(x@, y@),
{
    if x.command.eq(&y.command) {
        crate::text::str_lex_le(x.alias.as_str(), y.alias.as_str())
    } else {
        crate::text::str_lex_le(x.command.as_str(), y.command.as_str())
    }
}

/// Appends one entry built from the given command and alias.
fn push_entry(t: &mut Vec<AliasEntry>, command: &str, alias: &str)
    ensures
        final(t)@.len() == old(t)@.len() + 1,
        views(final(t)@) == views(old(t)@).push(
            EntryModel { command: command@, alias: alias@ },
        ),
{
    t.push(AliasEntry { command: String::from_str(command), alias: String::from_str(alias) });
    proof {
        assert(views(t@) =~= views(old(t)@).push(
            EntryModel { command: command@, alias: alias@ },
        ));
    }
}

/// Entries 0 through 29 of the table, as mathematics.
pub open spec fn table_model_part0() -> Seq<EntryModel> {
    seq![
        EntryModel { command: "git add"@, alias: "ga"@ },
        EntryModel { command: "git add --all"@, alias: "gaa"@ },
        EntryModel { command: "git add --patch"@, alias: "gapa"@ },
        EntryModel { command: "git add --update"@, alias: "gau"@ },
        EntryModel { command: "git add --verbose"@, alias: "gav"@ },
        EntryModel { command: "git apply"@, alias: "gap"@ },
        EntryModel { command: "git apply --3way"@, alias: "gapt"@ },
        EntryModel { command: "git branch"@, alias: "gb"@ },
        EntryModel { command: "git branch -a"@, alias: "gba"@ },
        EntryModel { command: "git branch -d"@, alias: "gbd"@ },
        EntryModel { command: "git branch -D"@, alias: "gbD"@ },
        EntryModel { command: "git blame -b -w"@, alias: "gbl"@ },
        EntryModel { command: "git branch --no-merged"@, alias: "gbnm"@ },
        EntryModel { command: "git branch --remote"@, alias: "gbr"@ },
        EntryModel { command: "git bisect"@, alias: "gbs"@ },
        EntryModel { command: "git bisect bad"@, alias: "gbsb"@ },
        EntryModel { command: "git bisect good"@, alias: "gbsg"@ },
        EntryModel { command: "git bisect reset"@, alias: "gbsr"@ },
        EntryModel { command: "git bisect start"@, alias: "gbss"@ },
        EntryModel { command: "git commit -v"@, alias: "gc"@ },
        EntryModel { command: "git commit -v --amend"@, alias: "gc"@ },
        EntryModel { command: "git commit -v --no-edit --amend"@, alias: "gcn"@ },
        EntryModel { command: "git commit -v -a"@, alias: "gca"@ },
        EntryModel { command: "git commit -v -a --amend"@, alias: "gca"@ },
        EntryModel { command: "git commit -v -a --no-edit --amend"@, alias: "gcan"@ },
        EntryModel { command: "git commit -v -a -s --no-edit --amend"@, alias: "gcans"@ },
        EntryModel { command: "git commit -a -m"@, alias: "gcam"@ },
        EntryModel { command: "git commit -s -m"@, alias: "gcsm"@ },
        EntryModel { command: "git checkout -b"@, alias: "gcb"@ },
        EntryModel { command: "git config --list"@, alias: "gcf"@ },
    ]
}

#[verifier::rlimit(60)]
fn push_part0(t: &mut Vec<AliasEntry>)
    ensures
        views(final(t)@) == views(old(t)@) + table_model_part0(),
{
    push_entry(t, "git add", "ga");
    push_entry(t, "git add --all", "gaa");
    push_entry(t, "git add --patch", "gapa");
    push_entry(t, "git add --update", "gau");
    push_entry(t, "git add --verbose", "gav");
    push_entry(t, "git apply", "gap");
    push_entry(t, "git apply --3way", "gapt");
    push_entry(t, "git branch", "gb");
    push_entry(t, "git branch -a", "gba");
    push_entry(t, "git branch -d", "gbd");
    push_entry(t, "git branch -D", "gbD");
    push_entry(t, "git blame -b -w", "gbl");
    push_entry(t, "git branch --no-merged", "gbnm");
    push_entry(t, "git branch --remote", "gbr");
    push_entry(t, "git bisect", "gbs");
    push_entry(t, "git bisect bad", "gbsb");
    push_entry(t, "git bisect good", "gbsg");
    push_entry(t, "git bisect reset", "gbsr");
    push_entry(t, "git bisect start", "gbss");
    push_entry(t, "git commit -v", "gc");
    push_entry(t, "git commit -v --amend", "gc");
    push_entry(t, "git commit -v --no-edit --amend", "gcn");
    push_entry(t, "git commit -v -a", "gca");
    push_entry(t, "git commit -v -a --amend", "gca");
    push_entry(t, "git commit -v -a --no-edit --amend", "gcan");
    push_entry(t, "git commit -v -a -s --no-edit --amend", "gcans");
    push_entry(t, "git commit -a -m", "gcam");
    push_entry(t, "git commit -s -m", "gcsm");
    push_entry(t, "git checkout -b", "gcb");
    push_entry(t, "git config --list", "gcf");
    proof {
        assert(views(t@) =~= views(old(t)@) + table_model_part0());
    }
}

/// Entries 30 through 59 of the table, as mathematics.
pub open spec fn table_model_part1() -> Seq<EntryModel> {
    seq![
        EntryModel { command: "git clone --recurse-submodules"@, alias: "gcl"@ },
        EntryModel { command: "git clean -id"@, alias: "gclean"@ },
        EntryModel { command: "git reset --hard && git clean -dffx"@, alias: "gpristine"@ },
        EntryModel { command: "git checkout $(git_main_branch)"@, alias: "gcm"@ },
        EntryModel { command: "git checkout develop"@, alias: "gcd"@ },
        EntryModel { command: "git commit -m"@, alias: "gcmsg"@ },
        EntryModel { command: "git checkout"@, alias: "gco"@ },
        EntryModel { command: "git shortlog -sn"@, alias: "gcount"@ },
        EntryModel { command: "git cherry-pick"@, alias: "gcp"@ },
        EntryModel { command: "git cherry-pick --abort"@, alias: "gcpa"@ },
        EntryModel { command: "git cherry-pick --continue"@, alias: "gcpc"@ },
        EntryModel { command: "git commit -S"@, alias: "gcs"@ },
        EntryModel { command: "git diff"@, alias: "gd"@ },
        EntryModel { command: "git diff --cached"@, alias: "gdca"@ },
        EntryModel { command: "git diff --cached --word-diff"@, alias: "gdcw"@ },
        EntryModel { command: "git describe --tags $(git rev-list --tags --max-count=1)"@, alias: "gdct"@ },
        EntryModel { command: "git diff --staged"@, alias: "gds"@ },
        EntryModel { command: "git diff-tree --no-commit-id --name-only -r"@, alias: "gdt"@ },
        EntryModel { command: "git diff -w $@ | view -"@, alias: "gdv"@ },
        EntryModel { command: "git diff --word-diff"@, alias: "gdw"@ },
        EntryModel { command: "git fetch"@, alias: "gf"@ },
        EntryModel { command: "git fetch --all --prune"@, alias: "gfa"@ },
        EntryModel { command: "git ls-files | grep"@, alias: "gfg"@ },
        EntryModel { command: "git fetch origin"@, alias: "gfo"@ },
        EntryModel { command: "git gui citool"@, alias: "gg"@ },
        EntryModel { command: "git gui citool --amend"@, alias: "gga"@ },
        EntryModel { command: "git push --force origin $(current_branch)"@, alias: "ggf"@ },
        EntryModel { command: "git push --force-with-lease origin $(current_branch)"@, alias: "ggfl"@ },
        EntryModel { command: "git pull origin $(current_branch)"@, alias: "ggl"@ },
        EntryModel { command: "git push origin $(current_branch)"@, alias: "ggp"@ },
    ]
}

#[verifier::rlimit(60)]
fn push_part1(t: &mut Vec<AliasEntry>)
    ensures
        views(final(t)@) == views(old(t)@) + table_model_part1(),
{
    push_entry(t, "git clone --recurse-submodules", "gcl");
    push_entry(t, "git clean -id", "gclean");
    push_entry(t, "git reset --hard && git clean -dffx", "gpristine");
    push_entry(t, "git checkout $(git_main_branch)", "gcm");
    push_entry(t, "git checkout develop", "gcd");
    push_entry(t, "git commit -m", "gcmsg");
    push_entry(t, "git checkout", "gco");
    push_entry(t, "git shortlog -sn", "gcount");
    push_entry(t, "git cherry-pick", "gcp");
    push_entry(t, "git cherry-pick --abort", "gcpa");
    push_entry(t, "git cherry-pick --continue", "gcpc");
    push_entry(t, "git commit -S", "gcs");
    push_entry(t, "git diff", "gd");
    push_entry(t, "git diff --cached", "gdca");
    push_entry(t, "git diff --cached --word-diff", "gdcw");
    push_entry(t, "git describe --tags $(git rev-list --tags --max-count=1)", "gdct");
    push_entry(t, "git diff --staged", "gds");
    push_entry(t, "git diff-tree --no-commit-id --name-only -r", "gdt");
    push_entry(t, "git diff -w $@ | view -", "gdv");
    push_entry(t, "git diff --word-diff", "gdw");
    push_entry(t, "git fetch", "gf");
    push_entry(t, "git fetch --all --prune", "gfa");
    push_entry(t, "git ls-files | grep", "gfg");
    push_entry(t, "git fetch origin", "gfo");
    push_entry(t, "git gui citool", "gg");
    push_entry(t, "git gui citool --amend", "gga");
    push_entry(t, "git push --force origin $(current_branch)", "ggf");
    push_entry(t, "git push --force-with-lease origin $(current_branch)", "ggfl");
    push_entry(t, "git pull origin $(current_branch)", "ggl");
    push_entry(t, "git push origin $(current_branch)", "ggp");
    proof {
        assert(views(t@) =~= views(old(t)@) + table_model_part1());
    }
}

/// Entries 60 through 89 of the table, as mathematics.
pub open spec fn table_model_part2() -> Seq<EntryModel> {
    seq![
        EntryModel { command: "ggl && ggp"@, alias: "ggpnp"@ },
        EntryModel { command: "git branch --set-upstream-to=origin/$(git_current_branch)"@, alias: "ggsup"@ },
        EntryModel { command: "git pull --rebase origin $(current_branch)"@, alias: "ggu"@ },
        EntryModel { command: "git push --set-upstream origin $(git_current_branch)"@, alias: "gpsup"@ },
        EntryModel { command: "git help"@, alias: "ghh"@ },
        EntryModel { command: "git update-index --assume-unchanged"@, alias: "gignore"@ },
        EntryModel { command: "gitk --all --branches"@, alias: "gk"@ },
        EntryModel { command: "gitk --all $(git log -g --pretty=%h)"@, alias: "gke"@ },
        EntryModel { command: "git pull"@, alias: "gl"@ },
        EntryModel { command: "git log --stat"@, alias: "glg"@ },
        EntryModel { command: "git log --stat -p"@, alias: "glgp"@ },
        EntryModel { command: "git log --graph"@, alias: "glgg"@ },
        EntryModel { command: "git log --graph --decorate --all"@, alias: "glgga"@ },
        EntryModel { command: "git log --graph --max-count=10"@, alias: "glgm"@ },
        EntryModel { command: "git log --oneline --decorate"@, alias: "glo"@ },
        EntryModel { command: "git log --oneline --decorate --graph"@, alias: "glog"@ },
        EntryModel { command: "git log --oneline --decorate --graph --all"@, alias: "gloga"@ },
        EntryModel { command: "git log --pretty=<format>"@, alias: "glp"@ },
        EntryModel { command: "git merge"@, alias: "gm"@ },
        EntryModel { command: "git merge origin/$(git_main_branch)"@, alias: "gmom"@ },
        EntryModel { command: "git mergetool --no-prompt"@, alias: "gmt"@ },
        EntryModel { command: "git mergetool --no-prompt --tool=vimdiff"@, alias: "gmtvim"@ },
        EntryModel { command: "git merge upstream/$(git_main_branch)"@, alias: "gmum"@ },
        EntryModel { command: "git merge --abort"@, alias: "gma"@ },
        EntryModel { command: "git push"@, alias: "gp"@ },
        EntryModel { command: "git push --dry-run"@, alias: "gpd"@ },
        EntryModel { command: "git push --force-with-lease"@, alias: "gpf"@ },
        EntryModel { command: "git push --force"@, alias: "gpf"@ },
        EntryModel { command: "git push origin --all && git push origin --tags"@, alias: "gpoat"@ },
        EntryModel { command: "git push upstream"@, alias: "gpu"@ },
    ]
}

#[verifier::rlimit(60)]
fn push_part2(t: &mut Vec<AliasEntry>)
    ensures
        views(final(t)@) == views(old(t)@) + table_model_part2(),
{
    push_entry(t, "ggl && ggp", "ggpnp");
    push_entry(t, "git branch --set-upstream-to=origin/$(git_current_branch)", "ggsup");
    push_entry(t, "git pull --rebase origin $(current_branch)", "ggu");
    push_entry(t, "git push --set-upstream origin $(git_current_branch)", "gpsup");
    push_entry(t, "git help", "ghh");
    push_entry(t, "git update-index --assume-unchanged", "gignore");
    push_entry(t, "gitk --all --branches", "gk");
    push_entry(t, "gitk --all $(git log -g --pretty=%h)", "gke");
    push_entry(t, "git pull", "gl");
    push_entry(t, "git log --stat", "glg");
    push_entry(t, "git log --stat -p", "glgp");
    push_entry(t, "git log --graph", "glgg");
    push_entry(t, "git log --graph --decorate --all", "glgga");
    push_entry(t, "git log --graph --max-count=10", "glgm");
    push_entry(t, "git log --oneline --decorate", "glo");
    push_entry(t, "git log --oneline --decorate --graph", "glog");
    push_entry(t, "git log --oneline --decorate --graph --all", "gloga");
    push_entry(t, "git log --pretty=<format>", "glp");
    push_entry(t, "git merge", "gm");
    push_entry(t, "git merge origin/$(git_main_branch)", "gmom");
    push_entry(t, "git mergetool --no-prompt", "gmt");
    push_entry(t, "git mergetool --no-prompt --tool=vimdiff", "gmtvim");
    push_entry(t, "git merge upstream/$(git_main_branch)", "gmum");
    push_entry(t, "git merge --abort", "gma");
    push_entry(t, "git push", "gp");
    push_entry(t, "git push --dry-run", "gpd");
    push_entry(t, "git push --force-with-lease", "gpf");
    push_entry(t, "git push --force", "gpf");
    push_entry(t, "git push origin --all && git push origin --tags", "gpoat");
    push_entry(t, "git push upstream", "gpu");
    proof {
        assert(views(t@) =~= views(old(t)@) + table_model_part2());
    }
}

/// Entries 90 through 119 of the table, as mathematics.
pub open spec fn table_model_part3() -> Seq<EntryModel> {
    seq![
        EntryModel { command: "git push -v"@, alias: "gpv"@ },
        EntryModel { command: "git remote"@, alias: "gr"@ },
        EntryModel { command: "git remote add"@, alias: "gra"@ },
        EntryModel { command: "git rebase"@, alias: "grb"@ },
        EntryModel { command: "git rebase --abort"@, alias: "grba"@ },
        EntryModel { command: "git rebase --continue"@, alias: "grbc"@ },
        EntryModel { command: "git rebase develop"@, alias: "grbd"@ },
        EntryModel { command: "git rebase -i"@, alias: "grbi"@ },
        EntryModel { command: "git rebase $(git_main_branch)"@, alias: "grbm"@ },
        EntryModel { command: "git rebase --skip"@, alias: "grbs"@ },
        EntryModel { command: "git revert"@, alias: "grev"@ },
        EntryModel { command: "git reset"@, alias: "grh"@ },
        EntryModel { command: "git reset --hard"@, alias: "grhh"@ },
        EntryModel { command: "git reset origin/$(git_current_branch) --hard"@, alias: "groh"@ },
        EntryModel { command: "git rm"@, alias: "grm"@ },
        EntryModel { command: "git rm --cached"@, alias: "grmc"@ },
        EntryModel { command: "git remote rename"@, alias: "grmv"@ },
        EntryModel { command: "git remote remove"@, alias: "grrm"@ },
        EntryModel { command: "git restore"@, alias: "grs"@ },
        EntryModel { command: "git remote set-url"@, alias: "grset"@ },
        EntryModel { command: "git restore --source"@, alias: "grss"@ },
        EntryModel { command: "git reset --"@, alias: "gru"@ },
        EntryModel { command: "git remote update"@, alias: "grup"@ },
        EntryModel { command: "git remote -v"@, alias: "grv"@ },
        EntryModel { command: "git status -sb"@, alias: "gsb"@ },
        EntryModel { command: "git svn dcommit"@, alias: "gsd"@ },
        EntryModel { command: "git show"@, alias: "gsh"@ },
        EntryModel { command: "git submodule init"@, alias: "gsi"@ },
        EntryModel { command: "git show --pretty=short --show-signature"@, alias: "gsps"@ },
        EntryModel { command: "git svn rebase"@, alias: "gsr"@ },
    ]
}

#[verifier::rlimit(60)]
fn push_part3(t: &mut Vec<AliasEntry>)
    ensures
        views(final(t)@) == views(old(t)@) + table_model_part3(),
{
    push_entry(t, "git push -v", "gpv");
    push_entry(t, "git remote", "gr");
    push_entry(t, "git remote add", "gra");
    push_entry(t, "git rebase", "grb");
    push_entry(t, "git rebase --abort", "grba");
    push_entry(t, "git rebase --continue", "grbc");
    push_entry(t, "git rebase develop", "grbd");
    push_entry(t, "git rebase -i", "grbi");
    push_entry(t, "git rebase $(git_main_branch)", "grbm");
    push_entry(t, "git rebase --skip", "grbs");
    push_entry(t, "git revert", "grev");
    push_entry(t, "git reset", "grh");
    push_entry(t, "git reset --hard", "grhh");
    push_entry(t, "git reset origin/$(git_current_branch) --hard", "groh");
    push_entry(t, "git rm", "grm");
    push_entry(t, "git rm --cached", "grmc");
    push_entry(t, "git remote rename", "grmv");
    push_entry(t, "git remote remove", "grrm");
    push_entry(t, "git restore", "grs");
    push_entry(t, "git remote set-url", "grset");
    push_entry(t, "git restore --source", "grss");
    push_entry(t, "git reset --", "gru");
    push_entry(t, "git remote update", "grup");
    push_entry(t, "git remote -v", "grv");
    push_entry(t, "git status -sb", "gsb");
    push_entry(t, "git svn dcommit", "gsd");
    push_entry(t, "git show", "gsh");
    push_entry(t, "git submodule init", "gsi");
    push_entry(t, "git show --pretty=short --show-signature", "gsps");
    push_entry(t, "git svn rebase", "gsr");
    proof {
        assert(views(t@) =~= views(old(t)@) + table_model_part3());
    }
}

/// Entries 120 through 149 of the table, as mathematics.
pub open spec fn table_model_part4() -> Seq<EntryModel> {
    seq![
        EntryModel { command: "git status -s"@, alias: "gss"@ },
        EntryModel { command: "git status"@, alias: "gst"@ },
        EntryModel { command: "git stash push"@, alias: "gsta"@ },
        EntryModel { command: "git stash save"@, alias: "gsta"@ },
        EntryModel { command: "git stash apply"@, alias: "gstaa"@ },
        EntryModel { command: "git stash clear"@, alias: "gstc"@ },
        EntryModel { command: "git stash drop"@, alias: "gstd"@ },
        EntryModel { command: "git stash list"@, alias: "gstl"@ },
        EntryModel { command: "git stash pop"@, alias: "gstp"@ },
        EntryModel { command: "git stash show --text"@, alias: "gsts"@ },
        EntryModel { command: "git stash --include-untracked"@, alias: "gstu"@ },
        EntryModel { command: "git stash --all"@, alias: "gstall"@ },
        EntryModel { command: "git submodule update"@, alias: "gsu"@ },
        EntryModel { command: "git switch"@, alias: "gsw"@ },
        EntryModel { command: "git switch -c"@, alias: "gswc"@ },
        EntryModel { command: "git tag -s"@, alias: "gts"@ },
        EntryModel { command: "git tag | sort -V"@, alias: "gtv"@ },
        EntryModel { command: "gtl(){ git tag --sort=-v,refname -n -l ${1}* }; noglob gtl"@, alias: "gtl"@ },
        EntryModel { command: "git update-index --no-assume-unchanged"@, alias: "gunignore"@ },
        EntryModel { command: "git pull --rebase"@, alias: "gup"@ },
        EntryModel { command: "git pull --rebase -v"@, alias: "gupv"@ },
        EntryModel { command: "git pull --rebase --autostash"@, alias: "gupa"@ },
        EntryModel { command: "git pull --rebase --autostash -v"@, alias: "gupav"@ },
        EntryModel { command: "git pull upstream $(git_main_branch)"@, alias: "glum"@ },
        EntryModel { command: "git whatchanged -p --abbrev-commit --pretty=medium"@, alias: "gwch"@ },
        EntryModel { command: "git am"@, alias: "gam"@ },
        EntryModel { command: "git am --continue"@, alias: "gamc"@ },
        EntryModel { command: "git am --skip"@, alias: "gams"@ },
        EntryModel { command: "git am --abort"@, alias: "gama"@ },
        EntryModel { command: "git am --show-current-patch"@, alias: "gamscp"@ },
    ]
}

#[verifier::rlimit(60)]
fn push_part4(t: &mut Vec<AliasEntry>)
    ensures
        views(final(t)@) == views(old(t)@) + table_model_part4(),
{
    push_entry(t, "git status -s", "gss");
    push_entry(t, "git status", "gst");
    push_entry(t, "git stash push", "gsta");
    push_entry(t, "git stash save", "gsta");
    push_entry(t, "git stash apply", "gstaa");
    push_entry(t, "git stash clear", "gstc");
    push_entry(t, "git stash drop", "gstd");
    push_entry(t, "git stash list", "gstl");
    push_entry(t, "git stash pop", "gstp");
    push_entry(t, "git stash show --text", "gsts");
    push_entry(t, "git stash --include-untracked", "gstu");
    push_entry(t, "git stash --all", "gstall");
    push_entry(t, "git submodule update", "gsu");
    push_entry(t, "git switch", "gsw");
    push_entry(t, "git switch -c", "gswc");
    push_entry(t, "git tag -s", "gts");
    push_entry(t, "git tag | sort -V", "gtv");
    push_entry(t, "gtl(){ git tag --sort=-v,refname -n -l ${1}* }; noglob gtl", "gtl");
    push_entry(t, "git update-index --no-assume-unchanged", "gunignore");
    push_entry(t, "git pull --rebase", "gup");
    push_entry(t, "git pull --rebase -v", "gupv");
    push_entry(t, "git pull --rebase --autostash", "gupa");
    push_entry(t, "git pull --rebase --autostash -v", "gupav");
    push_entry(t, "git pull upstream $(git_main_branch)", "glum");
    push_entry(t, "git whatchanged -p --abbrev-commit --pretty=medium", "gwch");
    push_entry(t, "git am", "gam");
    push_entry(t, "git am --continue", "gamc");
    push_entry(t, "git am --skip", "gams");
    push_entry(t, "git am --abort", "gama");
    push_entry(t, "git am --show-current-patch", "gamscp");
    proof {
        assert(views(t@) =~= views(old(t)@) + table_model_part4());
    }
}

/// The whole table as mathematics: every command paired with its alias,
/// in the order the table is built.
pub open spec fn table_model() -> Seq<EntryModel> {
    table_model_part0() + table_model_part1() + table_model_part2() + table_model_part3() + table_model_part4()
}

/// Builds the alias table. The result is exactly `table_model`, entry by
/// entry.
pub fn get_table() -> (t: Vec<AliasEntry>)
    ensures
        views(t@) == table_model(),
        t@.len() == 150,
{
    let mut t: Vec<AliasEntry> = Vec::new();
    push_part0(&mut t);
    push_part1(&mut t);
    push_part2(&mut t);
    push_part3(&mut t);
    push_part4(&mut t);
    proof {
        assert(views(t@) =~= table_model());
        assert(t@.len() == views(t@).len());
    }
    t
}

} // verus!
