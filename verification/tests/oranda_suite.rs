use oranda::builds::BuildLayer;
use oranda::config::{resolve_config, OrandaLayer};
use oranda::document::DocValue;
use oranda::errors::OrandaError;
use oranda::funding::{Funding, FundingContent, FundingType};
use oranda::mdbook::{plan_mdbook, plan_theme_patch, theme_file_paths};
use oranda::orchestrator::{
    effective_path_prefix, index_entries, member_built, member_dist_dir, plan_build,
};
use oranda::parse::parse_oranda_layer;
use oranda::repo::GithubRepo;
use oranda::sections::{BoolOr, MdBookLayer, SyntaxTheme};
use oranda::state::WorkspaceState;
use oranda::workspace::{resolve_members, WorkspaceConfig, WorkspaceLayer, WorkspaceMember};

fn empty_layer() -> OrandaLayer {
    OrandaLayer {
        project: None,
        build: None,
        marketing: None,
        styles: None,
        components: None,
        workspace: None,
        schema: None,
    }
}

fn build_layer(dist_dir: Option<&str>) -> OrandaLayer {
    let mut l = empty_layer();
    l.build = Some(BuildLayer {
        dist_dir: dist_dir.map(|s| s.to_owned()),
        static_dir: None,
        path_prefix: None,
        additional_pages: None,
    });
    l
}

fn member(slug: &str, path: &str) -> WorkspaceMember {
    WorkspaceMember {
        slug: slug.to_owned(),
        path: path.to_owned(),
    }
}

fn dict(entries: Vec<(&str, DocValue)>) -> DocValue {
    DocValue::Dict(
        entries
            .into_iter()
            .map(|(k, v)| (k.to_owned(), v))
            .collect(),
    )
}

fn s(text: &str) -> DocValue {
    DocValue::Str(text.to_owned())
}

#[test]
fn defaults_resolve_when_no_layer_sets_a_field() {
    let c = resolve_config(None, None);
    assert_eq!(c.build.dist_dir, "public");
    assert_eq!(c.build.static_dir, "static");
    assert!(c.build.path_prefix.is_none());
    assert!(c.build.additional_pages_list().is_empty());
    assert_eq!(c.styles.theme, "dark");
    assert!(c.workspace.generate_index);
    assert!(!c.workspace.auto);
    assert!(c.workspace.members.is_empty());
    assert!(c.components.mdbook.is_none());
    assert!(c.components.funding.is_none());
}

#[test]
fn dist_dir_unset_resolves_to_public_and_set_to_out() {
    let unset = resolve_config(Some(empty_layer()), None);
    assert_eq!(unset.build.dist_dir, "public");

    let set = resolve_config(Some(build_layer(Some("out"))), None);
    assert_eq!(set.build.dist_dir, "out");
}

#[test]
fn workspace_layer_wins_over_project_layer() {
    let c = resolve_config(Some(build_layer(Some("from_project"))), Some(build_layer(Some("from_workspace"))));
    assert_eq!(c.build.dist_dir, "from_workspace");
}

#[test]
fn project_layer_wins_over_default() {
    let c = resolve_config(Some(build_layer(Some("from_project"))), Some(build_layer(None)));
    assert_eq!(c.build.dist_dir, "from_project");
}

#[test]
fn resolution_is_deterministic() {
    let once = resolve_config(Some(build_layer(Some("out"))), Some(empty_layer()));
    let twice = resolve_config(Some(build_layer(Some("out"))), Some(empty_layer()));
    assert_eq!(once.build.dist_dir, twice.build.dist_dir);
    assert_eq!(once.build.static_dir, twice.build.static_dir);
    assert_eq!(once.styles.theme, twice.styles.theme);
    assert_eq!(once.workspace.generate_index, twice.workspace.generate_index);
}

#[test]
fn unknown_top_level_field_is_rejected_by_name() {
    let doc = dict(vec![("buidl", dict(vec![]))]);
    match parse_oranda_layer(&doc) {
        Err(OrandaError::ConfigParse { field }) => assert_eq!(field, "buidl"),
        other => panic!("expected a parse error naming the field, got {:?}", other.is_ok()),
    }
}

#[test]
fn unknown_nested_field_is_rejected_by_name() {
    let doc = dict(vec![(
        "build",
        dict(vec![("dist_dirr", s("out"))]),
    )]);
    match parse_oranda_layer(&doc) {
        Err(OrandaError::ConfigParse { field }) => assert_eq!(field, "dist_dirr"),
        _ => panic!("expected a parse error naming the nested field"),
    }
}

#[test]
fn well_formed_document_parses_with_order_kept() {
    let doc = dict(vec![
        ("$schema", s("https://example.invalid/oranda.schema.json")),
        ("project", dict(vec![("name", s("axolotlsay"))])),
        (
            "build",
            dict(vec![
                ("dist_dir", s("out")),
                (
                    "additional_pages",
                    dict(vec![("Guide", s("docs/guide.md")), ("About", s("docs/about.md"))]),
                ),
            ]),
        ),
        (
            "workspace",
            dict(vec![
                ("name", s("gallery")),
                ("generate_index", DocValue::Bool(true)),
                (
                    "members",
                    DocValue::List(vec![
                        dict(vec![("slug", s("docs")), ("path", s("./docs"))]),
                        dict(vec![("slug", s("api")), ("path", s("./api"))]),
                    ]),
                ),
            ]),
        ),
    ]);
    let layer = parse_oranda_layer(&doc).expect("document should parse");
    let c = resolve_config(Some(layer), None);
    assert_eq!(c.build.dist_dir, "out");
    let pages = c.build.additional_pages_list();
    assert_eq!(pages.len(), 2);
    assert_eq!(pages[0].0, "Guide");
    assert_eq!(pages[0].1, "docs/guide.md");
    assert_eq!(pages[1].0, "About");
    assert_eq!(c.workspace.name.as_deref(), Some("gallery"));
    assert_eq!(c.workspace.members.len(), 2);
    assert_eq!(c.workspace.members[0].slug, "docs");
    assert_eq!(c.workspace.members[1].path, "./api");
}

#[test]
fn duplicate_page_label_is_rejected() {
    let doc = dict(vec![(
        "build",
        dict(vec![(
            "additional_pages",
            dict(vec![("Guide", s("a.md")), ("Guide", s("b.md"))]),
        )]),
    )]);
    match parse_oranda_layer(&doc) {
        Err(OrandaError::ConfigParse { field }) => assert_eq!(field, "Guide"),
        _ => panic!("expected a parse error naming the repeated label"),
    }
}

#[test]
fn record_member_twice_keeps_one_entry() {
    let mut state = WorkspaceState::new();
    state.record_member(member("docs", "./docs"));
    state.record_member(member("docs", "./docs"));
    let members = state.members_list();
    assert_eq!(members.len(), 1);
    assert_eq!(members[0].slug, "docs");

    // A rebuild with a new path replaces the entry rather than adding one.
    state.record_member(member("docs", "./moved"));
    let members = state.members_list();
    assert_eq!(members.len(), 1);
    assert_eq!(members[0].path, "./moved");
}

#[test]
fn completeness_follows_the_required_set() {
    let required: Vec<String> = vec!["a".to_owned(), "b".to_owned(), "c".to_owned()];
    let mut state = WorkspaceState::new();
    state.record_member(member("a", "./a"));
    state.record_member(member("b", "./b"));
    assert!(!state.is_complete(&required));
    state.record_member(member("c", "./c"));
    assert!(state.is_complete(&required));
}

#[test]
fn index_is_generated_exactly_once_after_the_last_member() {
    let required: Vec<String> = vec!["docs".to_owned(), "api".to_owned()];
    let mut state = WorkspaceState::new();

    let emitted_after_docs = member_built(&mut state, member("docs", "./docs"), &required, true);
    assert!(!emitted_after_docs);

    let emitted_after_api = member_built(&mut state, member("api", "./api"), &required, true);
    assert!(emitted_after_api);

    let entries = index_entries(&state.members_list());
    assert_eq!(entries.len(), 2);
    assert_eq!(entries[0].slug, "docs");
    assert_eq!(entries[0].prefix, "docs/");
    assert_eq!(entries[1].slug, "api");
    assert_eq!(entries[1].prefix, "api/");
}

#[test]
fn index_is_not_generated_when_disabled() {
    let required: Vec<String> = vec!["docs".to_owned()];
    let mut state = WorkspaceState::new();
    let emitted = member_built(&mut state, member("docs", "./docs"), &required, false);
    assert!(!emitted);
}

#[test]
fn duplicate_member_slugs_are_rejected_before_any_build() {
    let cfg = WorkspaceConfig {
        name: None,
        generate_index: true,
        auto: false,
        members: vec![member("docs", "./docs"), member("docs", "./other")],
    };
    match resolve_members(&cfg, &Vec::new()) {
        Err(OrandaError::ConfigValidation { slug }) => assert_eq!(slug, "docs"),
        _ => panic!("expected a validation error naming the duplicated slug"),
    }
}

#[test]
fn discovered_members_come_sorted_after_explicit_ones() {
    let cfg = WorkspaceConfig {
        name: None,
        generate_index: true,
        auto: true,
        members: vec![member("docs", "./docs")],
    };
    let discovered = vec![
        member("zeta", "./zeta"),
        member("alpha", "./alpha"),
        member("docs2", "./docs"),
    ];
    let resolved = resolve_members(&cfg, &discovered).expect("resolution should succeed");
    let slugs: Vec<&str> = resolved.iter().map(|m| m.slug.as_str()).collect();
    assert_eq!(slugs, vec!["docs", "alpha", "zeta"]);
}

#[test]
fn discovery_is_ignored_when_auto_is_off() {
    let cfg = WorkspaceConfig {
        name: None,
        generate_index: true,
        auto: false,
        members: vec![member("docs", "./docs")],
    };
    let discovered = vec![member("alpha", "./alpha")];
    let resolved = resolve_members(&cfg, &discovered).expect("resolution should succeed");
    assert_eq!(resolved.len(), 1);
    assert_eq!(resolved[0].slug, "docs");
}

#[test]
fn state_documents_round_trip() {
    let path = "workspace-state.json".to_owned();
    let mut state = WorkspaceState::new();
    state.record_member(member("docs", "./docs"));
    state.record_member(member("api", "./api"));

    let doc = state.to_doc();
    let read = WorkspaceState::parse_state(&path, &doc).expect("the written state should read");
    let members = read.members_list();
    assert_eq!(members.len(), 2);
    assert_eq!(members[0].slug, "docs");
    assert_eq!(members[1].slug, "api");
    assert_eq!(members[1].path, "./api");
}

#[test]
fn corrupt_state_is_surfaced_with_its_path() {
    let path = "workspace-state.json".to_owned();
    match WorkspaceState::parse_state(&path, &s("not a state")) {
        Err(OrandaError::StateCorruption { path: p }) => assert_eq!(p, "workspace-state.json"),
        _ => panic!("expected state corruption"),
    }
    // Two entries for one slug cannot be a valid state either.
    let doc = dict(vec![(
        "members",
        DocValue::List(vec![
            dict(vec![("slug", s("docs")), ("path", s("./a"))]),
            dict(vec![("slug", s("docs")), ("path", s("./b"))]),
        ]),
    )]);
    assert!(WorkspaceState::parse_state(&path, &doc).is_err());
}

#[test]
fn funding_parses_known_providers_only() {
    assert_eq!(FundingType::from_key("github"), Some(FundingType::Github));
    assert_eq!(FundingType::from_key("ko_fi"), Some(FundingType::KoFi));
    assert_eq!(FundingType::from_key("paypal"), None);

    let doc_entries = vec![
        ("github".to_owned(), DocValue::List(vec![s("octocat"), s("axodotdev")])),
        ("custom".to_owned(), s("https://example.invalid/donate")),
    ];
    let funding = Funding::from_parts(Some(&doc_entries), Some("<p>thanks</p>".to_owned()))
        .expect("the funding document should parse");
    assert_eq!(funding.content.len(), 2);
    assert_eq!(funding.content[0].0, FundingType::Github);
    match &funding.content[0].1 {
        FundingContent::Multiple(handles) => assert_eq!(handles, &vec!["octocat".to_owned(), "axodotdev".to_owned()]),
        _ => panic!("expected several handles"),
    }
    assert_eq!(funding.docs_content.as_deref(), Some("<p>thanks</p>"));

    let bad = vec![("patreonn".to_owned(), s("someone"))];
    match Funding::from_parts(Some(&bad), None) {
        Err(OrandaError::ConfigParse { field }) => assert_eq!(field, "patreonn"),
        _ => panic!("expected a parse error naming the unknown provider"),
    }
}

#[test]
fn repository_urls_resolve_to_owner_and_name() {
    let repo = GithubRepo::from_url(&"https://github.com/axodotdev/oranda".to_owned())
        .expect("a plain repository URL should parse");
    assert_eq!(repo.owner, "axodotdev");
    assert_eq!(repo.name, "oranda");

    // A trailing slash only adds a blank segment.
    let repo = GithubRepo::from_url(&"https://github.com/axodotdev/oranda/".to_owned())
        .expect("a trailing slash is fine");
    assert_eq!(repo.owner, "axodotdev");
    assert_eq!(repo.name, "oranda");

    assert!(GithubRepo::from_url(&"https://github.com/axodotdev".to_owned()).is_err());
    assert!(GithubRepo::from_url(&"https://github.com/a/b/c".to_owned()).is_err());
    match GithubRepo::from_url(&"not a url at all".to_owned()) {
        Err(OrandaError::RepoParse { repo, .. }) => assert_eq!(repo, "not a url at all"),
        _ => panic!("expected a repo parse error"),
    }
}

#[test]
fn theme_patching_rewrites_only_when_something_changes() {
    let src = "[book]\ntitle = \"t\"\n".to_owned();
    let patched = match plan_theme_patch(&src).expect("valid TOML should patch") {
        Some(t) => t,
        None => panic!("patching a bare book.toml must change it"),
    };
    assert_ne!(patched, src);
    assert!(patched.contains("default-theme"));
    assert!(patched.contains("axo"));

    // Patching the already-patched text is a no-op, so no write happens.
    match plan_theme_patch(&patched).expect("patched TOML is still valid") {
        None => {}
        Some(_) => panic!("re-patching must not change the text again"),
    }

    assert!(matches!(
        plan_theme_patch(&"= not toml".to_owned()),
        Err(OrandaError::Collaborator { .. })
    ));
}

#[test]
fn theme_patching_refuses_shapes_it_cannot_index() {
    // Valid TOML whose `output` or `output.html` cannot take the theme
    // keys must come back as an error, not a crash.
    assert!(matches!(
        plan_theme_patch(&"output = 1
".to_owned()),
        Err(OrandaError::Collaborator { .. })
    ));
    assert!(matches!(
        plan_theme_patch(&"[[output]]
x = 1
".to_owned()),
        Err(OrandaError::Collaborator { .. })
    ));
    assert!(matches!(
        plan_theme_patch(&"[output]
html = \"x\"
".to_owned()),
        Err(OrandaError::Collaborator { .. })
    ));
    // An existing table-like shape is patched in place.
    let src = "[output.html]
git-repository-url = \"u\"
".to_owned();
    let patched = plan_theme_patch(&src)
        .expect("a table-shaped book.toml should patch")
        .expect("the theme keys are new, so the text changes");
    assert!(patched.contains("default-theme"));
    assert!(patched.contains("git-repository-url"));
}

#[test]
fn the_index_page_lists_every_entry_in_order() {
    let mut state = WorkspaceState::new();
    state.record_member(member("docs", "./docs"));
    state.record_member(member("api", "./api"));
    let html = oranda::orchestrator::render_index(&index_entries(&state.members_list()));
    assert_eq!(
        html,
        "<!DOCTYPE html><html><body><ul>\
         <li><a href=\"docs/\">docs</a></li>\
         <li><a href=\"api/\">api</a></li>\
         </ul></body></html>"
    );
}

#[test]
fn build_plans_follow_the_resolved_configuration() {
    let mut layer = empty_layer();
    layer.components = Some(oranda::components::ComponentsLayer {
        mdbook: Some(BoolOr::Val(MdBookLayer {
            path: Some("docs/book".to_owned()),
            theme: None,
        })),
        funding: Some(BoolOr::Bool(false)),
        artifacts: None,
    });
    let c = resolve_config(Some(layer), None);
    let plan = plan_build(&c);
    assert_eq!(plan.dist_dir, "public");
    let book = plan.mdbook.expect("the book component is on");
    assert_eq!(book.book_dir, "docs/book");
    assert!(book.inject_theme);
    assert_eq!(book.book_dist, "public/book");
    assert!(plan.funding_yml.is_none());
    assert_eq!(plan.syntax_theme, SyntaxTheme::MaterialTheme);

    let book_cfg = oranda::sections::MdBookConfig {
        path: "book".to_owned(),
        theme: Some(false),
    };
    let p = plan_mdbook(&book_cfg, &"out".to_owned());
    assert!(!p.inject_theme);
    assert_eq!(p.book_dist, "out/book");

    let files = theme_file_paths(&SyntaxTheme::MaterialTheme);
    assert_eq!(files.len(), 7);
    assert_eq!(files[0], "css/general.css");
    assert_eq!(files[6], "highlight.css");
}

#[test]
fn member_locations_default_to_slugs() {
    assert_eq!(member_dist_dir(&"public".to_owned(), &"docs".to_owned()), "public/docs");
    assert_eq!(effective_path_prefix(&None, &"docs".to_owned()), "docs");
    assert_eq!(
        effective_path_prefix(&Some("elsewhere".to_owned()), &"docs".to_owned()),
        "elsewhere"
    );
}

#[test]
fn package_manager_queries_see_both_lists() {
    let doc = dict(vec![(
        "components",
        dict(vec![(
            "artifacts",
            dict(vec![
                ("cargo_dist", DocValue::Bool(true)),
                (
                    "package_managers",
                    dict(vec![(
                        "preferred",
                        dict(vec![("npm", s("npm install thing"))]),
                    )]),
                ),
            ]),
        )]),
    )]);
    let layer = parse_oranda_layer(&doc).expect("the components section should parse");
    let c = resolve_config(Some(layer), None);
    assert!(c.components.artifacts.cargo_dist());
    assert!(c.components.artifacts.has_some());
    let pm = c.components.artifacts.package_managers.as_ref().expect("package managers were set");
    assert!(pm.has("npm"));
    assert!(pm.has_npm());
    assert!(!pm.has("brew"));
    assert!(pm.has_some());
}

#[test]
fn whole_workspace_sections_merge_by_field() {
    let mut project = empty_layer();
    project.workspace = Some(WorkspaceLayer {
        name: Some("from project".to_owned()),
        generate_index: Some(false),
        members: None,
        auto: None,
    });
    let mut workspace = empty_layer();
    workspace.workspace = Some(WorkspaceLayer {
        name: None,
        generate_index: Some(true),
        members: Some(vec![member("docs", "./docs")]),
        auto: None,
    });
    let c = resolve_config(Some(project), Some(workspace));
    // The later layer wins where it speaks; the earlier one where not.
    assert_eq!(c.workspace.name.as_deref(), Some("from project"));
    assert!(c.workspace.generate_index);
    assert_eq!(c.workspace.members.len(), 1);
    assert!(!c.workspace.auto);
}
