//! Tests for the string-encoded compound types and the document model.

use compose_yml::AliasedName;
use compose_yml::Build;
use compose_yml::Context;
use compose_yml::File;
use compose_yml::GitUrl;
use compose_yml::InterpolatableValue;
use compose_yml::NetworkMode;
use compose_yml::Secret;
use compose_yml::Service;
use compose_yml::raw;

#[test]
fn aliased_name_can_be_converted_to_and_from_a_string() {
    assert_eq!(
        AliasedName::from_str("foo").unwrap(),
        AliasedName::new("foo", None).unwrap()
    );
    assert_eq!(
        AliasedName::from_str("foo:bar").unwrap(),
        AliasedName::new("foo", Some("bar")).unwrap()
    );
    assert!(AliasedName::from_str("foo:bar:baz").is_err());

    assert_eq!(AliasedName::new("foo", None).unwrap().format_iv(), "foo");
    assert_eq!(
        AliasedName::new("foo", Some("bar")).unwrap().format_iv(),
        "foo:bar"
    );
}

#[test]
fn aliased_name_exposes_its_parts() {
    let pair = AliasedName::from_str("foo:bar").unwrap();
    assert_eq!(pair.name(), "foo");
    assert_eq!(pair.alias().as_deref(), Some("bar"));
    let bare = AliasedName::from_str("foo").unwrap();
    assert_eq!(bare.name(), "foo");
    assert!(bare.alias().is_none());
}

#[test]
fn aliased_name_rejects_malformed_text() {
    assert!(AliasedName::from_str("").is_err());
    assert!(AliasedName::from_str(":bar").is_err());
    assert!(AliasedName::from_str("foo:").is_err());
    assert!(AliasedName::new("fo:o", None).is_err());
    assert!(AliasedName::new("foo", Some("b:ar")).is_err());
}

#[test]
fn context_may_contain_git_urls() {
    let urls = vec![
        "git://github.com/docker/docker",
        "git@github.com:docker/docker.git",
        "git@bitbucket.org:atlassianlabs/atlassian-docker.git",
        "https://github.com/docker/docker.git",
        "http://github.com/docker/docker.git",
        "github.com/docker/docker.git",
    ];

    for url in urls {
        let context = Context::new(url);
        assert_eq!(context, Context::GitUrl(GitUrl::new(url).unwrap()));
        assert_eq!(context.format_iv(), url);
    }
}

#[test]
fn context_may_contain_dir_paths() {
    let paths = vec![".", "./foo", "./foo/bar/"];
    for path in paths {
        let context = Context::new(path);
        assert_eq!(context, Context::Dir(path.to_string()));
        assert_eq!(context.format_iv(), path);
    }
}

#[test]
fn git_url_classification_requires_a_known_prefix() {
    assert!(GitUrl::should_treat_as_url("git://host/repo"));
    assert!(GitUrl::should_treat_as_url("git@host:org/repo.git"));
    assert!(GitUrl::should_treat_as_url("https://host/repo.git"));
    assert!(!GitUrl::should_treat_as_url("src/myapp"));
    assert!(!GitUrl::should_treat_as_url("gi"));
    assert!(!GitUrl::should_treat_as_url("gitx://host/repo"));
    assert!(GitUrl::new("src/myapp").is_err());
}

#[test]
fn network_mode_parses_and_renders_every_form() {
    assert_eq!(NetworkMode::from_str("bridge").unwrap(), NetworkMode::Bridge);
    assert_eq!(NetworkMode::from_str("host").unwrap(), NetworkMode::Host);
    assert_eq!(NetworkMode::from_str("none").unwrap(), NetworkMode::NoNetwork);
    assert_eq!(
        NetworkMode::from_str("service:web").unwrap(),
        NetworkMode::Service("web".to_string())
    );
    assert_eq!(
        NetworkMode::from_str("container:db").unwrap(),
        NetworkMode::Container("db".to_string())
    );
    assert!(NetworkMode::from_str("invalid").is_err());
    assert!(NetworkMode::from_str("service:").is_err());
    assert!(NetworkMode::from_str("container:").is_err());

    for text in ["bridge", "host", "none", "service:web", "container:db"] {
        assert_eq!(NetworkMode::from_str(text).unwrap().format_iv(), text);
    }
}

#[test]
fn a_file_holds_services_with_deferred_fields() {
    let mut service = Service::new();
    service.build = Some(Build::new(Context::new(".")));
    service.image = Some(raw("$IMAGE").unwrap());
    let mut file = File::new();
    file.services.push(("foo".to_string(), service));

    let (name, stored) = &file.services[0];
    assert_eq!(name, "foo");
    assert_eq!(
        stored.build.as_ref().unwrap().context,
        Context::Dir(".".to_string())
    );
    assert_eq!(stored.image.as_ref().unwrap().render(), "$IMAGE");
}

#[test]
fn a_default_secret_is_empty() {
    let secret = Secret::default();
    assert!(secret.file.is_none());
    assert!(secret.external.is_none());
    assert!(secret.kind.is_none());
    assert!(secret.length.is_none());
    assert!(secret.labels.is_empty());
}
