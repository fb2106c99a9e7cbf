//! From the files that a change touches to the follow-up work it asks for,
//! and from there to the advice sent to the maintainers.

use crate::github::compare::File;
use crate::text::{
    join, joined, lemma_joined_begins_with_first, occurs_at, same_text, starts_with, views,
};
use vstd::prelude::*;

verus! {

/// The follow-up work that a change asks for.
#[derive(Clone, Copy, Debug, PartialEq, Eq, Structural)]
pub struct Diff {
    /// The assets have to be built again.
    pub build: bool,
    /// The JavaScript dependencies have to be installed again.
    pub yarn: bool,
    /// The PHP dependencies have to be installed again.
    pub composer: bool,
    /// The database has to be migrated.
    pub migration: bool,
}

impl Diff {
    /// No follow-up work at all.
    pub open spec fn none() -> Diff {
        Diff { build: false, yarn: false, composer: false, migration: false }
    }

    /// Whether no follow-up work is asked for.
    pub open spec fn is_clean(self) -> bool {
        !self.build && !self.yarn && !self.composer && !self.migration
    }

    /// Every piece of work that either of the two asks for.
    pub open spec fn or(self, other: Diff) -> Diff {
        Diff {
            build: self.build || other.build,
            yarn: self.yarn || other.yarn,
            composer: self.composer || other.composer,
            migration: self.migration || other.migration,
        }
    }

    /// Whether no follow-up work is asked for.
    pub fn clean(&self) -> (r: bool)
        ensures
            r == self.is_clean(),
    {
        !self.build && !self.yarn && !self.composer && !self.migration
    }
}

impl Default for Diff {
    fn default() -> (d: Diff)
        ensures
            d == Diff::none(),
    {
        Diff { build: false, yarn: false, composer: false, migration: false }
    }
}

/// The kinds of path that ask for follow-up work.
#[derive(Clone, Copy, Debug, PartialEq, Eq, Structural)]
pub enum Rule {
    /// `package.json` or `yarn.lock`.
    Packages,
    /// `composer.json` or `composer.lock`.
    Composer,
    /// `webpack.config.js`.
    Webpack,
    /// Anything that begins with `resources/assets/src`.
    Assets,
    /// Anything that begins with `database/migrations`.
    Migrations,
}

/// The first rule of the table that `path` matches. The first three rules
/// match a path as a whole, the last two by its beginning.
pub open spec fn rule_of(path: Seq<char>) -> Option<Rule> {
    if path == "package.json"@ || path == "yarn.lock"@ {
        Some(Rule::Packages)
    } else if path == "composer.json"@ || path == "composer.lock"@ {
        Some(Rule::Composer)
    } else if path == "webpack.config.js"@ {
        Some(Rule::Webpack)
    } else if "resources/assets/src"@.is_prefix_of(path) {
        Some(Rule::Assets)
    } else if "database/migrations"@.is_prefix_of(path) {
        Some(Rule::Migrations)
    } else {
        None
    }
}

/// The work that a rule asks for.
pub open spec fn rule_flags(rule: Rule) -> Diff {
    match rule {
        Rule::Packages => Diff { build: true, yarn: true, composer: false, migration: false },
        Rule::Composer => Diff { build: false, yarn: false, composer: true, migration: false },
        Rule::Webpack => Diff { build: true, yarn: false, composer: false, migration: false },
        Rule::Assets => Diff { build: true, yarn: false, composer: false, migration: false },
        Rule::Migrations => Diff { build: false, yarn: false, composer: false, migration: true },
    }
}

/// The work that one path asks for.
pub open spec fn flags_of(path: Seq<char>) -> Diff {
    match rule_of(path) {
        Some(rule) => rule_flags(rule),
        None => Diff::none(),
    }
}

/// Whether some path of `paths` asks for the piece of work that `piece`
/// picks.
pub open spec fn some_path_asks(paths: Seq<Seq<char>>, piece: spec_fn(Diff) -> bool) -> bool {
    exists|i: int| 0 <= i < paths.len() && piece(#[trigger] flags_of(paths[i]))
}

/// The work that a set of paths asks for: each piece that any one path
/// asks for.
pub open spec fn classify(paths: Seq<Seq<char>>) -> Diff {
    Diff {
        build: some_path_asks(paths, |d: Diff| d.build),
        yarn: some_path_asks(paths, |d: Diff| d.yarn),
        composer: some_path_asks(paths, |d: Diff| d.composer),
        migration: some_path_asks(paths, |d: Diff| d.migration),
    }
}

/// The paths of `files`.
pub open spec fn paths_of(files: Seq<File>) -> Seq<Seq<char>> {
    files.map_values(|f: File| f.filename@)
}

/// Finds the rule that `path` matches.
pub fn match_rule(path: &str) -> (rule: Option<Rule>)
    ensures
        rule == rule_of(path@),
{
    if same_text(path, "package.json") || same_text(path, "yarn.lock") {
        Some(Rule::Packages)
    } else if same_text(path, "composer.json") || same_text(path, "composer.lock") {
        Some(Rule::Composer)
    } else if same_text(path, "webpack.config.js") {
        Some(Rule::Webpack)
    } else if starts_with(path, "resources/assets/src") {
        Some(Rule::Assets)
    } else if starts_with(path, "database/migrations") {
        Some(Rule::Migrations)
    } else {
        None
    }
}

/// With one more path, some path asks for a piece of work where one did
/// before or the new one does.
proof fn lemma_some_path_asks_push(
    paths: Seq<Seq<char>>,
    path: Seq<char>,
    piece: spec_fn(Diff) -> bool,
)
    ensures
        some_path_asks(paths.push(path), piece) == (some_path_asks(paths, piece) || piece(
            flags_of(path),
        )),
{
    let more = paths.push(path);
    let n = paths.len() as int;
    if some_path_asks(more, piece) {
        let i = choose|i: int| 0 <= i < more.len() && piece(#[trigger] flags_of(more[i]));
        if i < n {
            assert(piece(flags_of(paths[i])));
        }
    }
    if some_path_asks(paths, piece) {
        let i = choose|i: int| 0 <= i < paths.len() && piece(#[trigger] flags_of(paths[i]));
        assert(piece(flags_of(more[i])));
    }
    if piece(flags_of(path)) {
        assert(piece(flags_of(more[n])));
    }
}

/// Adding one path to a set adds what that path asks for.
pub proof fn lemma_classify_push(paths: Seq<Seq<char>>, path: Seq<char>)
    ensures
        classify(paths.push(path)) == classify(paths).or(flags_of(path)),
{
    lemma_some_path_asks_push(paths, path, |d: Diff| d.build);
    lemma_some_path_asks_push(paths, path, |d: Diff| d.yarn);
    lemma_some_path_asks_push(paths, path, |d: Diff| d.composer);
    lemma_some_path_asks_push(paths, path, |d: Diff| d.migration);
}

/// Classifies the files that a change touches.
pub fn diff(files: &[File]) -> (d: Diff)
    ensures
        d == classify(paths_of(files@)),
{
    let mut d = Diff { build: false, yarn: false, composer: false, migration: false };
    let mut i: usize = 0;
    while i < files.len()
        invariant
            i <= files.len(),
            d == classify(paths_of(files@).take(i as int)),
        decreases files.len() - i,
    {
        let rule = match_rule(files[i].filename.as_str());
        proof {
            let paths = paths_of(files@);
            assert(paths.take(i + 1) =~= paths.take(i as int).push(paths[i as int]));
            lemma_classify_push(paths.take(i as int), paths[i as int]);
        }
        match rule {
            Some(Rule::Packages) => {
                d.yarn = true;
                d.build = true;
            },
            Some(Rule::Composer) => {
                d.composer = true;
            },
            Some(Rule::Webpack) => {
                d.build = true;
            },
            Some(Rule::Assets) => {
                d.build = true;
            },
            Some(Rule::Migrations) => {
                d.migration = true;
            },
            None => {},
        }
        i += 1;
    }
    assert(paths_of(files@).take(files@.len() as int) =~= paths_of(files@));
    d
}

/// The line that opens the advice.
pub const HEADER: &'static str = "拉取此 commit 后，您需要：\n";

/// Install the JavaScript dependencies, then build the assets.
pub const YARN_THEN_BUILD: &'static str =
    "先执行 <code>yarn</code>，然后执行 <code>pwsh ./scripts/build.ps1</code>。";

/// Build the assets.
pub const BUILD_ONLY: &'static str = "执行 <code>pwsh ./scripts/build.ps1</code>。";

/// Install the PHP dependencies.
pub const COMPOSER_INSTALL: &'static str = "执行 <code>composer install</code>。";

/// Migrate the database.
pub const MIGRATE: &'static str = "执行 <code>php artisan migrate</code>。";

/// The number of ways to say that nothing has to be done.
pub const NO_ACTION_CHOICES: usize = 3;

/// The first way to say that nothing has to be done.
pub const JUST_PULL: &'static str = "您可以直接拉取新 commit。";

/// The second way to say that nothing has to be done.
pub const ORDER_NOW: &'static str = "还在犹豫什么，赶快拿起 <code>git pull</code> 订购吧！";

/// The third way to say that nothing has to be done.
pub const BRAND_NEW: &'static str = "是朋友，就 <code>git pull</code>。介是你没有用过的船新版本。";

/// The pool of ways to say that nothing has to be done.
#[derive(Clone, Copy, Debug, PartialEq, Eq, Structural)]
pub enum Phrase {
    JustPull,
    OrderNow,
    BrandNew,
}

impl Phrase {
    /// The phrase at `place` in the pool; none beyond its end.
    pub open spec fn at(place: int) -> Option<Phrase> {
        if place == 0 {
            Some(Phrase::JustPull)
        } else if place == 1 {
            Some(Phrase::OrderNow)
        } else if place == 2 {
            Some(Phrase::BrandNew)
        } else {
            None
        }
    }

    /// The words of the phrase.
    pub open spec fn words(self) -> Seq<char> {
        match self {
            Phrase::JustPull => JUST_PULL@,
            Phrase::OrderNow => ORDER_NOW@,
            Phrase::BrandNew => BRAND_NEW@,
        }
    }

    /// The phrase at `place` in the pool; none beyond its end.
    pub fn from_index(place: usize) -> (phrase: Option<Phrase>)
        ensures
            phrase == Phrase::at(place as int),
            phrase is Some <==> place < NO_ACTION_CHOICES,
    {
        if place == 0 {
            Some(Phrase::JustPull)
        } else if place == 1 {
            Some(Phrase::OrderNow)
        } else if place == 2 {
            Some(Phrase::BrandNew)
        } else {
            None
        }
    }

    /// The words of the phrase.
    pub fn as_str(&self) -> (words: &'static str)
        ensures
            words@ == self.words(),
    {
        match self {
            Phrase::JustPull => JUST_PULL,
            Phrase::OrderNow => ORDER_NOW,
            Phrase::BrandNew => BRAND_NEW,
        }
    }
}

/// The instructions that `d` asks for, in the order in which they are to
/// be carried out: assets, then PHP dependencies, then the database. Where
/// the JavaScript dependencies changed, the first instruction covers both
/// installing them and building.
pub open spec fn instructions(d: Diff) -> Seq<Seq<char>> {
    let assets = if d.yarn {
        seq![YARN_THEN_BUILD@]
    } else if d.build {
        seq![BUILD_ONLY@]
    } else {
        seq![]
    };
    let composer = if d.composer {
        seq![COMPOSER_INSTALL@]
    } else {
        seq![]
    };
    let database = if d.migration {
        seq![MIGRATE@]
    } else {
        seq![]
    };
    assets + composer + database
}

/// The advice for a change that asks for work: the header, then one line
/// for each instruction.
pub open spec fn advisory(d: Diff) -> Seq<char> {
    HEADER@ + joined(instructions(d), "\n"@)
}

/// What is said where nothing has to be done: the phrase, closed by a line
/// feed.
pub open spec fn no_action(phrase: Phrase) -> Seq<char> {
    phrase.words().push('\n')
}

/// What the maintainers are told: the phrase where nothing has to be done,
/// the advice otherwise.
pub open spec fn analysis(d: Diff, phrase: Phrase) -> Seq<char> {
    if d.is_clean() {
        no_action(phrase)
    } else {
        advisory(d)
    }
}

/// Lists the instructions that `d` asks for.
pub fn list_instructions(d: Diff) -> (lines: Vec<String>)
    ensures
        views(lines@) == instructions(d),
{
    let mut lines: Vec<String> = Vec::new();
    if d.yarn {
        lines.push(String::from_str(YARN_THEN_BUILD));
    } else if d.build {
        lines.push(String::from_str(BUILD_ONLY));
    }
    if d.composer {
        lines.push(String::from_str(COMPOSER_INSTALL));
    }
    if d.migration {
        lines.push(String::from_str(MIGRATE));
    }
    lines
}

/// Writes the advice for `d`.
pub fn advise(d: Diff) -> (text: String)
    ensures
        text@ == advisory(d),
{
    let lines = list_instructions(d);
    let body = join(&lines, "\n");
    let mut text = String::from_str(HEADER);
    text.append(body.as_str());
    text
}

/// Writes what is said where nothing has to be done.
pub fn no_action_text(phrase: Phrase) -> (text: String)
    ensures
        text@ == no_action(phrase),
{
    let mut text = String::from_str(phrase.as_str());
    text.push('\n');
    text
}

/// Writes what the maintainers are told about `d`, with `phrase` where
/// nothing has to be done.
pub fn render_analysis(d: Diff, phrase: Phrase) -> (text: String)
    ensures
        text@ == analysis(d, phrase),
{
    if d.clean() {
        no_action_text(phrase)
    } else {
        advise(d)
    }
}

/// Draws an index below `n` with `rand::seq::IteratorRandom::choose` on the
/// range `0..n`, from the generator that `rand::thread_rng` hands out. The
/// draw yields nothing exactly when the range is empty, and otherwise a
/// member of the range; which one is not said. The generator panics where
/// the system gives it no seed.
#[verifier::external_body]
fn choose_index(n: usize) -> (pick: Option<usize>)
    ensures
        pick is None <==> n == 0,
        pick matches Some(i) ==> i < n,
{
    rand::seq::IteratorRandom::choose(0..n, &mut rand::thread_rng())
}

/// Draws a phrase from the pool: a place below the number of its phrases is
/// drawn at random, and the phrase that stands at that place is handed out.
pub(crate) fn pick_phrase() -> (phrase: Phrase)
    ensures
        exists|place: int| 0 <= place < NO_ACTION_CHOICES && Phrase::at(place) == Some(phrase),
{
    let place = choose_index(NO_ACTION_CHOICES).unwrap();
    Phrase::from_index(place).unwrap()
}

/// Writes what the maintainers are told about `d`. Where nothing has to be
/// done, the phrase is drawn at random from the pool.
pub fn analyze_diff(d: Diff) -> (text: String)
    ensures
        exists|phrase: Phrase| text@ == analysis(d, phrase),
        !d.is_clean() ==> text@ == advisory(d),
{
    if d.clean() {
        let phrase = pick_phrase();
        let text = no_action_text(phrase);
        assert(text@ == analysis(d, phrase));
        text
    } else {
        let text = advise(d);
        assert(text@ == analysis(d, Phrase::JustPull));
        text
    }
}

/// What a set of paths asks for depends on which paths are listed, not on
/// their order and not on how often each is listed.
pub proof fn lemma_classify_depends_on_members(a: Seq<Seq<char>>, b: Seq<Seq<char>>)
    requires
        forall|p: Seq<char>| a.contains(p) <==> b.contains(p),
    ensures
        classify(a) == classify(b),
{
    lemma_classify_covers(a, b);
    lemma_classify_covers(b, a);
}

/// Where every path of `a` is listed in `b` and some path of `a` asks for a
/// piece of work, some path of `b` asks for it.
proof fn lemma_some_path_asks_covers(
    a: Seq<Seq<char>>,
    b: Seq<Seq<char>>,
    piece: spec_fn(Diff) -> bool,
)
    requires
        forall|p: Seq<char>| a.contains(p) ==> b.contains(p),
        some_path_asks(a, piece),
    ensures
        some_path_asks(b, piece),
{
    let i = choose|i: int| 0 <= i < a.len() && piece(#[trigger] flags_of(a[i]));
    assert(a.contains(a[i]));
    let j = choose|j: int| 0 <= j < b.len() && b[j] == a[i];
    assert(piece(flags_of(b[j])));
}

/// Where every path of `a` is listed in `b`, `b` asks for all that `a` asks
/// for: no path takes back what another asks for.
pub proof fn lemma_classify_covers(a: Seq<Seq<char>>, b: Seq<Seq<char>>)
    requires
        forall|p: Seq<char>| a.contains(p) ==> b.contains(p),
    ensures
        classify(a).build ==> classify(b).build,
        classify(a).yarn ==> classify(b).yarn,
        classify(a).composer ==> classify(b).composer,
        classify(a).migration ==> classify(b).migration,
{
    if classify(a).build {
        lemma_some_path_asks_covers(a, b, |d: Diff| d.build);
    }
    if classify(a).yarn {
        lemma_some_path_asks_covers(a, b, |d: Diff| d.yarn);
    }
    if classify(a).composer {
        lemma_some_path_asks_covers(a, b, |d: Diff| d.composer);
    }
    if classify(a).migration {
        lemma_some_path_asks_covers(a, b, |d: Diff| d.migration);
    }
}

/// The advice has one instruction for the assets where a build or the
/// JavaScript dependencies are asked for, one for each of the two other
/// flags that is set, and none besides. No instruction is empty, so that
/// the advice has no blank line.
pub proof fn lemma_instructions_follow_the_flags(d: Diff)
    ensures
        instructions(d).len() == (if d.yarn || d.build {
            1nat
        } else {
            0nat
        }) + (if d.composer {
            1nat
        } else {
            0nat
        }) + (if d.migration {
            1nat
        } else {
            0nat
        }),
        d.is_clean() <==> instructions(d).len() == 0,
        forall|i: int| 0 <= i < instructions(d).len() ==> (#[trigger] instructions(d)[i]).len() > 0,
{
    reveal_strlit("先执行 <code>yarn</code>，然后执行 <code>pwsh ./scripts/build.ps1</code>。");
    reveal_strlit("执行 <code>pwsh ./scripts/build.ps1</code>。");
    reveal_strlit("执行 <code>composer install</code>。");
    reveal_strlit("执行 <code>php artisan migrate</code>。");
}

/// A change that touches no path of the table asks for nothing. The
/// maintainers are then told a phrase of the pool: it is not empty, and it
/// does not open as the advice does.
pub proof fn lemma_unrecognized_paths_ask_nothing(paths: Seq<Seq<char>>, phrase: Phrase)
    requires
        forall|i: int| 0 <= i < paths.len() ==> rule_of(#[trigger] paths[i]) is None,
    ensures
        classify(paths) == Diff::none(),
        analysis(classify(paths), phrase) == no_action(phrase),
        no_action(phrase).len() > 0,
        !HEADER@.is_prefix_of(no_action(phrase)),
{
    assert forall|i: int| 0 <= i < paths.len() implies flags_of(#[trigger] paths[i])
        == Diff::none() by {}
    reveal_strlit("拉取此 commit 后，您需要：\n");
    reveal_strlit("您可以直接拉取新 commit。");
    reveal_strlit("还在犹豫什么，赶快拿起 <code>git pull</code> 订购吧！");
    reveal_strlit("是朋友，就 <code>git pull</code>。介是你没有用过的船新版本。");
    let said = no_action(phrase);
    if HEADER@.is_prefix_of(said) {
        assert(said.subrange(0, HEADER@.len() as int)[0] == said[0]);
    }
}

/// A change that touches `package.json` asks for the JavaScript
/// dependencies and for a build, wherever and however often the path is
/// listed. The advice then opens with the instruction that covers both.
pub proof fn lemma_package_json_asks_install_and_build(paths: Seq<Seq<char>>, phrase: Phrase)
    requires
        paths.contains("package.json"@),
    ensures
        classify(paths).yarn,
        classify(paths).build,
        analysis(classify(paths), phrase) == advisory(classify(paths)),
        occurs_at(advisory(classify(paths)), HEADER@.len() as int, YARN_THEN_BUILD@),
{
    let i = choose|i: int| 0 <= i < paths.len() && paths[i] == "package.json"@;
    assert(flags_of(paths[i]).yarn && flags_of(paths[i]).build);
    let d = classify(paths);
    let lines = instructions(d);
    lemma_joined_begins_with_first(lines, "\n"@);
    let body = joined(lines, "\n"@);
    assert(advisory(d).subrange(
        HEADER@.len() as int,
        (HEADER@.len() + YARN_THEN_BUILD@.len()) as int,
    ) =~= body.subrange(0, YARN_THEN_BUILD@.len() as int));
}

/// A change that touches `composer.lock` and nothing else asks for the PHP
/// dependencies and for nothing else. The advice is then the header and the
/// one instruction to install them.
pub proof fn lemma_only_composer_lock_asks_composer(paths: Seq<Seq<char>>, phrase: Phrase)
    requires
        paths.len() > 0,
        forall|i: int| 0 <= i < paths.len() ==> #[trigger] paths[i] == "composer.lock"@,
    ensures
        classify(paths) == (Diff { build: false, yarn: false, composer: true, migration: false }),
        analysis(classify(paths), phrase) == HEADER@ + COMPOSER_INSTALL@,
{
    reveal_strlit("composer.lock");
    reveal_strlit("package.json");
    reveal_strlit("yarn.lock");
    let only = Diff { build: false, yarn: false, composer: true, migration: false };
    assert("composer.lock"@[0] != "yarn.lock"@[0]);
    assert forall|i: int| 0 <= i < paths.len() implies flags_of(#[trigger] paths[i]) == only by {}
    assert(flags_of(paths[0]).composer);
}

/// A change that touches a path beginning with `database/migrations` asks
/// for a migration. The match is by characters, not by path segments.
pub proof fn lemma_migration_path_asks_migration(paths: Seq<Seq<char>>, i: int)
    requires
        0 <= i < paths.len(),
        "database/migrations"@.is_prefix_of(paths[i]),
    ensures
        classify(paths).migration,
{
    reveal_strlit("database/migrations");
    reveal_strlit("package.json");
    reveal_strlit("yarn.lock");
    reveal_strlit("composer.json");
    reveal_strlit("composer.lock");
    reveal_strlit("webpack.config.js");
    reveal_strlit("resources/assets/src");
    let path = paths[i];
    assert(path[0] == path.subrange(0, "database/migrations"@.len() as int)[0]);
    if "resources/assets/src"@.is_prefix_of(path) {
        assert(path[0] == path.subrange(0, "resources/assets/src"@.len() as int)[0]);
    }
    assert(rule_of(path) == Some(Rule::Migrations));
    assert(flags_of(paths[i]).migration);
}

} // verus!
