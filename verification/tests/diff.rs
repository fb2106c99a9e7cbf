use bot::diff::{
    advise, analyze_diff, diff, list_instructions, match_rule, no_action_text, render_analysis,
    Diff, Phrase, Rule, BRAND_NEW, BUILD_ONLY, COMPOSER_INSTALL, HEADER, JUST_PULL, MIGRATE,
    NO_ACTION_CHOICES, ORDER_NOW, YARN_THEN_BUILD,
};
use bot::github::compare::File;

fn files(names: &[&str]) -> Vec<File> {
    names.iter().map(|name| File { filename: name.to_string() }).collect()
}

#[test]
fn test_diff() {
    let files = &[File {
        filename: "tests".into(),
    }];
    let diff_result = diff(files);
    assert!(!diff_result.build);
    assert!(!diff_result.yarn);
    assert!(!diff_result.composer);
    assert!(!diff_result.migration);

    let files = &[File {
        filename: "package.json".into(),
    }];
    let diff_result = diff(files);
    assert!(diff_result.build);
    assert!(diff_result.yarn);
    assert!(!diff_result.composer);
    assert!(!diff_result.migration);

    let files = &[File {
        filename: "yarn.lock".into(),
    }];
    let diff_result = diff(files);
    assert!(diff_result.build);
    assert!(diff_result.yarn);
    assert!(!diff_result.composer);
    assert!(!diff_result.migration);

    let files = &[File {
        filename: "composer.json".into(),
    }];
    let diff_result = diff(files);
    assert!(!diff_result.build);
    assert!(!diff_result.yarn);
    assert!(diff_result.composer);
    assert!(!diff_result.migration);

    let files = &[File {
        filename: "composer.lock".into(),
    }];
    let diff_result = diff(files);
    assert!(!diff_result.build);
    assert!(!diff_result.yarn);
    assert!(diff_result.composer);
    assert!(!diff_result.migration);

    let files = &[File {
        filename: "webpack.config.js".into(),
    }];
    let diff_result = diff(files);
    assert!(diff_result.build);
    assert!(!diff_result.yarn);
    assert!(!diff_result.composer);
    assert!(!diff_result.migration);

    let files = &[File {
        filename: "resources/assets/src/index.ts".into(),
    }];
    let diff_result = diff(files);
    assert!(diff_result.build);
    assert!(!diff_result.yarn);
    assert!(!diff_result.composer);
    assert!(!diff_result.migration);

    let files = &[File {
        filename: "resources/assets/test/setup.ts".into(),
    }];
    let diff_result = diff(files);
    assert!(!diff_result.build);
    assert!(!diff_result.yarn);
    assert!(!diff_result.composer);
    assert!(!diff_result.migration);

    let files = &[File {
        filename: "database/migrations/a.php".into(),
    }];
    let diff_result = diff(files);
    assert!(!diff_result.build);
    assert!(!diff_result.yarn);
    assert!(!diff_result.composer);
    assert!(diff_result.migration);
}

#[test]
fn test_analyze_diff() {
    let mut diff = Diff::default();

    let analysis = analyze_diff(diff.clone());
    assert!(!analysis.contains("yarn"));
    assert!(!analysis.contains("pwsh"));
    assert!(!analysis.contains("composer"));

    diff.yarn = true;
    let analysis = analyze_diff(diff.clone());
    assert!(analysis.contains("yarn"));
    assert!(analysis.contains("pwsh"));

    diff.build = true;
    let analysis = analyze_diff(diff.clone());
    assert!(analysis.contains("yarn"));
    assert!(analysis.contains("pwsh"));

    diff.yarn = false;
    diff.build = true;
    let analysis = analyze_diff(diff.clone());
    assert!(!analysis.contains("yarn"));
    assert!(analysis.contains("pwsh"));

    diff.composer = true;
    let analysis = analyze_diff(diff.clone());
    assert!(analysis.contains("composer install"));

    diff.composer = false;
    diff.migration = true;
    let analysis = analyze_diff(diff.clone());
    assert!(analysis.contains("php artisan migrate"));
}

#[test]
fn default_diff_asks_for_nothing() {
    let d = Diff::default();
    assert_eq!(d, Diff { build: false, yarn: false, composer: false, migration: false });
    assert!(d.clean());
    assert!(!Diff { migration: true, ..d }.clean());
}

#[test]
fn empty_change_asks_for_nothing() {
    assert_eq!(diff(&[]), Diff::default());
}

#[test]
fn rules_match_whole_paths_and_beginnings() {
    assert_eq!(match_rule("package.json"), Some(Rule::Packages));
    assert_eq!(match_rule("yarn.lock"), Some(Rule::Packages));
    assert_eq!(match_rule("composer.json"), Some(Rule::Composer));
    assert_eq!(match_rule("composer.lock"), Some(Rule::Composer));
    assert_eq!(match_rule("webpack.config.js"), Some(Rule::Webpack));
    assert_eq!(match_rule("resources/assets/src"), Some(Rule::Assets));
    assert_eq!(match_rule("resources/assets/src/a/b.ts"), Some(Rule::Assets));
    assert_eq!(match_rule("database/migrations"), Some(Rule::Migrations));
    assert_eq!(match_rule("sub/package.json"), None);
    assert_eq!(match_rule("package.json.bak"), None);
    assert_eq!(match_rule("resources/assets/sr"), None);
    assert_eq!(match_rule("Database/migrations/a.php"), None);
    assert_eq!(match_rule(""), None);
}

#[test]
fn unrecognized_paths_ask_for_nothing() {
    let d = diff(&files(&["README.md", "app/Http/Kernel.php", "resources/assets/tests/a.ts", ""]));
    assert_eq!(d, Diff::default());
    let pool = [JUST_PULL, ORDER_NOW, BRAND_NEW];
    for place in 0..NO_ACTION_CHOICES {
        let text = render_analysis(d, Phrase::from_index(place).unwrap());
        assert_eq!(text, format!("{}\n", pool[place]));
        assert!(!text.is_empty());
        assert!(!text.starts_with(HEADER));
    }
    let drawn = analyze_diff(d);
    assert!(pool.iter().any(|phrase| drawn == format!("{}\n", phrase)));
}

#[test]
fn no_action_phrases_are_the_pool_in_order() {
    assert_eq!(no_action_text(Phrase::JustPull), "您可以直接拉取新 commit。\n");
    assert_eq!(
        no_action_text(Phrase::OrderNow),
        "还在犹豫什么，赶快拿起 <code>git pull</code> 订购吧！\n"
    );
    assert_eq!(
        no_action_text(Phrase::BrandNew),
        "是朋友，就 <code>git pull</code>。介是你没有用过的船新版本。\n"
    );
}

#[test]
fn pool_has_three_phrases() {
    assert_eq!(NO_ACTION_CHOICES, 3);
    assert_eq!(Phrase::from_index(0), Some(Phrase::JustPull));
    assert_eq!(Phrase::from_index(1), Some(Phrase::OrderNow));
    assert_eq!(Phrase::from_index(2), Some(Phrase::BrandNew));
    assert_eq!(Phrase::from_index(3), None);
    assert_eq!(Phrase::from_index(usize::MAX), None);
    assert_eq!(Phrase::JustPull.as_str(), JUST_PULL);
    assert_eq!(Phrase::OrderNow.as_str(), ORDER_NOW);
    assert_eq!(Phrase::BrandNew.as_str(), BRAND_NEW);
}

#[test]
fn drawn_phrase_lies_in_the_pool() {
    let pool = [JUST_PULL, ORDER_NOW, BRAND_NEW];
    for _ in 0..200 {
        let drawn = analyze_diff(Diff::default());
        assert!(pool.iter().any(|phrase| drawn == format!("{}\n", phrase)));
    }
}

#[test]
fn package_json_asks_for_install_and_build() {
    let once = diff(&files(&["src/a.rs", "package.json", "README.md"]));
    assert!(once.yarn);
    assert!(once.build);
    assert!(!once.composer);
    assert!(!once.migration);
    let twice = diff(&files(&["package.json", "src/a.rs", "package.json", "README.md"]));
    assert_eq!(once, twice);
    let text = analyze_diff(once);
    assert_eq!(
        text,
        "拉取此 commit 后，您需要：\n先执行 <code>yarn</code>，然后执行 <code>pwsh ./scripts/build.ps1</code>。"
    );
    assert_eq!(&text[HEADER.len()..], YARN_THEN_BUILD);
}

#[test]
fn order_of_paths_does_not_matter() {
    let one = diff(&files(&["composer.json", "x", "database/migrations/1.php", "yarn.lock"]));
    let other = diff(&files(&["yarn.lock", "database/migrations/1.php", "x", "composer.json"]));
    assert_eq!(one, other);
    assert_eq!(one, Diff { build: true, yarn: true, composer: true, migration: true });
}

#[test]
fn only_composer_lock_asks_for_composer_alone() {
    let d = diff(&files(&["composer.lock", "composer.lock"]));
    assert_eq!(d, Diff { build: false, yarn: false, composer: true, migration: false });
    let text = analyze_diff(d);
    assert_eq!(text, "拉取此 commit 后，您需要：\n执行 <code>composer install</code>。");
    assert_eq!(text, format!("{}{}", HEADER, COMPOSER_INSTALL));
    assert_eq!(text.lines().count(), 2);
}

#[test]
fn migration_rule_matches_by_characters() {
    assert!(diff(&files(&["database/migrations/2020_01_01_create.php"])).migration);
    assert!(diff(&files(&["database/migrationsold/x"])).migration);
    assert!(diff(&files(&["a", "database/migrations"])).migration);
    assert!(!diff(&files(&["database/migration"])).migration);
    assert!(!diff(&files(&["x/database/migrations/a.php"])).migration);
    assert_eq!(
        diff(&files(&["database/migrationsold/x"])),
        Diff { build: false, yarn: false, composer: false, migration: true }
    );
}

#[test]
fn instructions_come_in_order_and_without_gaps() {
    let all = Diff { build: true, yarn: true, composer: true, migration: true };
    assert_eq!(
        list_instructions(all),
        vec![YARN_THEN_BUILD.to_string(), COMPOSER_INSTALL.to_string(), MIGRATE.to_string()]
    );
    assert_eq!(
        advise(all),
        format!("{}{}\n{}\n{}", HEADER, YARN_THEN_BUILD, COMPOSER_INSTALL, MIGRATE)
    );
    let build_and_db = Diff { build: true, yarn: false, composer: false, migration: true };
    assert_eq!(
        advise(build_and_db),
        "拉取此 commit 后，您需要：\n执行 <code>pwsh ./scripts/build.ps1</code>。\n执行 <code>php artisan migrate</code>。"
    );
    let yarn_alone = Diff { build: false, yarn: true, composer: false, migration: false };
    assert_eq!(list_instructions(yarn_alone), vec![YARN_THEN_BUILD.to_string()]);
    let build_alone = Diff { build: true, yarn: false, composer: false, migration: false };
    assert_eq!(list_instructions(build_alone), vec![BUILD_ONLY.to_string()]);
    assert!(list_instructions(Diff::default()).is_empty());
    assert_eq!(advise(Diff::default()), HEADER);
}

#[test]
fn analysis_ignores_the_pick_when_work_is_asked_for() {
    let d = Diff { build: false, yarn: false, composer: false, migration: true };
    let expected = format!("{}{}", HEADER, MIGRATE);
    for phrase in [Phrase::JustPull, Phrase::OrderNow, Phrase::BrandNew] {
        assert_eq!(render_analysis(d, phrase), expected);
    }
}

#[test]
fn more_paths_take_nothing_back() {
    let few = diff(&files(&["yarn.lock"]));
    let more = diff(&files(&["docs/a.md", "yarn.lock", "tests/b.php", "composer.json"]));
    assert!(few.yarn && few.build);
    assert!(more.yarn && more.build && more.composer);
    assert!(!more.migration);
}

#[test]
fn clean_is_the_same_as_no_instruction() {
    for bits in 0..16u8 {
        let d = Diff {
            build: bits & 1 != 0,
            yarn: bits & 2 != 0,
            composer: bits & 4 != 0,
            migration: bits & 8 != 0,
        };
        let lines = list_instructions(d);
        assert_eq!(d.clean(), lines.is_empty());
        let expected = usize::from(d.build || d.yarn)
            + usize::from(d.composer)
            + usize::from(d.migration);
        assert_eq!(lines.len(), expected);
        assert!(lines.iter().all(|line| !line.is_empty()));
    }
}
