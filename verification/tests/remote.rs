use commit_lsp::issue_tracker::UpstreamError;
use commit_lsp::remote::RemoteDescriptor;

#[test]
fn https_url_is_read() {
    let d = RemoteDescriptor::parse("https://github.com/texel/commit-lsp.git").unwrap();
    assert_eq!(d.host.as_deref(), Some("github.com"));
    assert_eq!(d.owner.as_deref(), Some("texel"));
    assert_eq!(d.organization, None);
    assert_eq!(d.name, "commit-lsp");
    assert_eq!(d.fullname, "texel/commit-lsp");
}

#[test]
fn ssh_url_is_read() {
    let d = RemoteDescriptor::parse("git@gitlab.example.com:group/project.git").unwrap();
    assert_eq!(d.host.as_deref(), Some("gitlab.example.com"));
    assert_eq!(d.owner.as_deref(), Some("group"));
    assert_eq!(d.name, "project");
    assert_eq!(d.fullname, "group/project");
}

#[test]
fn azure_urls_have_an_organization() {
    let d = RemoteDescriptor::parse("https://Company@dev.azure.com/Company/Project/_git/Repo")
        .unwrap();
    assert_eq!(d.host.as_deref(), Some("dev.azure.com"));
    assert_eq!(d.organization.as_deref(), Some("Company"));
    assert_eq!(d.owner.as_deref(), Some("Project"));
    assert_eq!(d.name, "Repo");
    let d = RemoteDescriptor::parse("git@ssh.dev.azure.com:v3/Company/Project/Repo").unwrap();
    assert_eq!(d.host.as_deref(), Some("ssh.dev.azure.com"));
    assert_eq!(d.organization.as_deref(), Some("Company"));
    assert_eq!(d.owner.as_deref(), Some("Project"));
    assert_eq!(d.name, "Repo");
}

#[test]
fn azure_url_with_too_short_a_path_is_an_error() {
    for url in [
        "https://dev.azure.com/Company",
        "https://dev.azure.com/Company/Project",
        "https://dev.azure.com/",
        "git@ssh.dev.azure.com:v3/Company",
        "ssh://git@ssh.dev.azure.com/Repo",
    ] {
        match RemoteDescriptor::parse(url) {
            Err(UpstreamError::Other(text)) => {
                assert_eq!(text, "Git Url not in expected format", "{url}")
            }
            other => panic!("{url}: unexpected {other:?}"),
        }
    }
}

#[test]
fn ssh_url_without_a_path_is_an_error() {
    for url in ["ssh://host/?query", "ssh://host/#part", "ssh://git@host/."] {
        assert!(
            matches!(RemoteDescriptor::parse(url), Err(UpstreamError::Other(_))),
            "{url}"
        );
    }
}

#[test]
fn what_is_no_url_is_an_error() {
    assert!(matches!(RemoteDescriptor::parse("https://"), Err(UpstreamError::Other(_))));
    assert!(matches!(RemoteDescriptor::parse("a\0b"), Err(UpstreamError::Other(_))));
}

#[test]
fn reading_never_panics() {
    let schemes = ["", "ssh://", "https://", "http://", "git://", "git+ssh://", "ftp://", "ftps://", "file://", "git:", "ssh:", "unspecified://", "HTTPS://"];
    let users = ["", "git@", "user:pass@", "@"];
    let hosts = [
        "dev.azure.com", "ssh.dev.azure.com", "github.com", "DEV.AZURE.COM", "host",
        "dev.azure.com.", "[::1]", "", "dev.az\ture.com", "dev%2Eazure.com", "192.168.0.1",
    ];
    let ports = ["", ":22", ":"];
    let separators = ["/", ":", ""];
    let paths = [
        "", "a", "a/b", "a/b/c", "a/b/c/d", "v3/a/b/c", "/", "//", "a//", "./a", "../a", "a/..",
        ".", "..", "a/./b", "%2e", "%2E%2e/a", "a b", "?q", "#f", "a?b/c/d/e", "a/b/c#d/e",
        "ä/ö/ü/ß", "a/b/c/d/", "\\a\\b", "a/b/..", "a/b/c/../..", "v3//", "_git/x",
    ];
    let endings = ["", "/", ".git", "//", "/.", "/.."];
    let mut read = 0u32;
    let mut understood = 0u32;
    for scheme in schemes {
        for user in users {
            for host in hosts {
                for port in ports {
                    for separator in separators {
                        for path in paths {
                            for ending in endings {
                                let url =
                                    format!("{scheme}{user}{host}{port}{separator}{path}{ending}");
                                read += 1;
                                if RemoteDescriptor::parse(&url).is_ok() {
                                    understood += 1;
                                }
                            }
                        }
                    }
                }
            }
        }
    }
    assert!(read > 200_000);
    assert!(understood > 1_000);
}
