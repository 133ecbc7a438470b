//! AppShell link checks: every companion app wires the shared header and
//! footer to its GitHub repository (title link and release-tag link).

use vstd::prelude::*;
use super::engine::{any_file_matches, any_file_matches_spec, total_matches, total_matches_spec};
use crate::text::{chars_eq_str, chars_of, contains_spec, contains_str, extend_str, string_of};

verus! {

/// The app whose dashboard is rendered server-side (Maud) rather than by
/// the shared frontend.
pub const SERVER_RENDERED_APP: &'static str = "statesync";

/// What the link check needs to know about one app.
pub struct LinkCheckInput {
    /// The app directory's name.
    pub name: String,
    /// `src/dashboard/` exists.
    pub has_dashboard: bool,
    /// `src/dashboard/dashboard_page.rs`, when present (empty when
    /// unreadable).
    pub dashboard_page: Option<String>,
    /// `src/dashboard/scripts_actions.rs`, when present (empty when
    /// unreadable).
    pub scripts_actions: Option<String>,
    /// The texts of the `.rs` files under `frontend/src`, when that
    /// directory exists.
    pub frontend_sources: Option<Vec<String>>,
}

/// One line of the link check's report for an app.
#[derive(Clone, Copy, Debug, PartialEq, Eq, Structural)]
pub enum LinkFinding {
    /// `FAIL`: the server-rendered dashboard page is missing.
    MissingDashboardPage,
    /// `FAIL`: the dashboard title does not link the GitHub repository.
    TitleMissingRepoLink,
    /// `FAIL`: the dashboard version footer lacks a release-tag link.
    VersionMissingTagLink,
    /// `ok` for the server-rendered app.
    ServerRenderedOk,
    /// `FAIL`: the frontend does not use `AppShell`.
    NoAppShell,
    /// `FAIL`: fewer than two `repo: Some("{name}")` props (the count).
    RepoPropsMissing(usize),
    /// `FAIL`: no `show_version:` in the footer props.
    MissingShowVersion,
    /// `FAIL`: the footer props carry no version value.
    MissingVersionValue,
    /// `ok`, with the count of repo props.
    Passed(usize),
    /// `skip`: no web UI.
    SkippedNoWebUi,
    /// A built-in pattern did not compile.
    PatternError,
}

/// The report for one app and whether it failed.
pub struct LinkCheck {
    pub findings: Vec<LinkFinding>,
    pub failed: bool,
}

/// The pattern for the repo prop of app `name`: `repo: Some\("{name}"`.
pub open spec fn repo_prop_pattern(name: Seq<char>) -> Seq<char> {
    "repo: Some\\(\""@ + name + "\""@
}

/// The texts of a list of strings.
pub open spec fn texts(v: Seq<String>) -> Seq<Seq<char>> {
    v.map_values(|f: String| f@)
}

/// The server-rendered app's report.
pub open spec fn server_rendered_spec(page: Option<Seq<char>>, scripts: Option<Seq<char>>) -> (
    Seq<LinkFinding>,
    bool,
) {
    match page {
        None => (seq![LinkFinding::MissingDashboardPage], true),
        Some(p) => {
            let title_bad = !contains_spec(p, "github.com/studio2201/statesync"@);
            let tag_bad = scripts matches Some(s) && !contains_spec(s, "releases/tag/v"@);
            let fs = (if title_bad {
                seq![LinkFinding::TitleMissingRepoLink]
            } else {
                Seq::empty()
            }) + (if tag_bad {
                seq![LinkFinding::VersionMissingTagLink]
            } else {
                Seq::empty()
            });
            if title_bad || tag_bad {
                (fs, true)
            } else {
                (seq![LinkFinding::ServerRenderedOk], false)
            }
        },
    }
}

/// The frontend app's report, or `None` when a pattern does not compile.
pub open spec fn frontend_spec(name: Seq<char>, files: Seq<Seq<char>>) -> Option<
    (Seq<LinkFinding>, bool),
> {
    match (
        any_file_matches_spec("AppShell"@, files),
        total_matches_spec(repo_prop_pattern(name), files),
        any_file_matches_spec("show_version:"@, files),
        any_file_matches_spec("version:\\s*(Some\\(|self\\.|env!|version)"@, files),
        any_file_matches_spec("^\\s+version,"@, files),
    ) {
        (Some(shell), Some(hits), Some(show), Some(v1), Some(v2)) => {
            let fs = (if !shell {
                seq![LinkFinding::NoAppShell]
            } else {
                Seq::empty()
            }) + (if hits < 2 {
                seq![LinkFinding::RepoPropsMissing(hits)]
            } else {
                Seq::empty()
            }) + (if !show {
                seq![LinkFinding::MissingShowVersion]
            } else {
                Seq::empty()
            }) + (if !v1 && !v2 {
                seq![LinkFinding::MissingVersionValue]
            } else {
                Seq::empty()
            });
            if fs.len() == 0 {
                Some((seq![LinkFinding::Passed(hits)], false))
            } else {
                Some((fs, true))
            }
        },
        _ => None,
    }
}

/// The link check's report for one app and whether it failed.
pub open spec fn link_check_spec(inp: LinkCheckInput) -> (Seq<LinkFinding>, bool) {
    if inp.name@ == SERVER_RENDERED_APP@ || (inp.frontend_sources is None && inp.has_dashboard) {
        server_rendered_spec(
            match inp.dashboard_page {
                Some(p) => Some(p@),
                None => None,
            },
            match inp.scripts_actions {
                Some(s) => Some(s@),
                None => None,
            },
        )
    } else {
        match inp.frontend_sources {
            None => (seq![LinkFinding::SkippedNoWebUi], false),
            Some(files) => match frontend_spec(inp.name@, texts(files@)) {
                None => (seq![LinkFinding::PatternError], true),
                Some(r) => r,
            },
        }
    }
}

/// Check one app's AppShell header/footer links.
pub fn check_appshell_links(inp: &LinkCheckInput) -> (r: LinkCheck)
    ensures
        (r.findings@, r.failed) == link_check_spec(*inp),
{
    let name = chars_of(inp.name.as_str());
    let server_rendered = chars_eq_str(&name, SERVER_RENDERED_APP);
    if server_rendered || (inp.frontend_sources.is_none() && inp.has_dashboard) {
        let mut findings: Vec<LinkFinding> = Vec::new();
        match &inp.dashboard_page {
            None => {
                findings.push(LinkFinding::MissingDashboardPage);
                assert(findings@ =~= seq![LinkFinding::MissingDashboardPage]);
                return LinkCheck { findings, failed: true };
            },
            Some(page) => {
                let pc = chars_of(page.as_str());
                let title_bad = !contains_str(&pc, "github.com/studio2201/statesync");
                let tag_bad = match &inp.scripts_actions {
                    Some(s) => {
                        let sc = chars_of(s.as_str());
                        !contains_str(&sc, "releases/tag/v")
                    },
                    None => false,
                };
                if title_bad {
                    findings.push(LinkFinding::TitleMissingRepoLink);
                }
                if tag_bad {
                    findings.push(LinkFinding::VersionMissingTagLink);
                }
                if title_bad || tag_bad {
                    proof {
                        let a: Seq<LinkFinding> = if title_bad {
                            seq![LinkFinding::TitleMissingRepoLink]
                        } else {
                            Seq::empty()
                        };
                        let b: Seq<LinkFinding> = if tag_bad {
                            seq![LinkFinding::VersionMissingTagLink]
                        } else {
                            Seq::empty()
                        };
                        assert(findings@ =~= a + b);
                    }
                    return LinkCheck { findings, failed: true };
                }
                let mut ok: Vec<LinkFinding> = Vec::new();
                ok.push(LinkFinding::ServerRenderedOk);
                assert(ok@ =~= seq![LinkFinding::ServerRenderedOk]);
                return LinkCheck { findings: ok, failed: false };
            },
        }
    }
    let files = match &inp.frontend_sources {
        None => {
            let mut findings: Vec<LinkFinding> = Vec::new();
            findings.push(LinkFinding::SkippedNoWebUi);
            assert(findings@ =~= seq![LinkFinding::SkippedNoWebUi]);
            return LinkCheck { findings, failed: false };
        },
        Some(f) => f,
    };
    let mut repo_pattern: Vec<char> = Vec::new();
    extend_str(&mut repo_pattern, "repo: Some\\(\"");
    extend_str(&mut repo_pattern, inp.name.as_str());
    extend_str(&mut repo_pattern, "\"");
    let repo_pattern = string_of(&repo_pattern);
    let shell = any_file_matches("AppShell", files);
    let hits = total_matches(repo_pattern.as_str(), files);
    let show = any_file_matches("show_version:", files);
    let v1 = any_file_matches("version:\\s*(Some\\(|self\\.|env!|version)", files);
    let v2 = any_file_matches("^\\s+version,", files);
    match (shell, hits, show, v1, v2) {
        (Some(shell), Some(hits), Some(show), Some(v1), Some(v2)) => {
            let mut findings: Vec<LinkFinding> = Vec::new();
            let ghost s0 = findings@;
            if !shell {
                findings.push(LinkFinding::NoAppShell);
            }
            let ghost s1 = findings@;
            if hits < 2 {
                findings.push(LinkFinding::RepoPropsMissing(hits));
            }
            let ghost s2 = findings@;
            if !show {
                findings.push(LinkFinding::MissingShowVersion);
            }
            let ghost s3 = findings@;
            if !v1 && !v2 {
                findings.push(LinkFinding::MissingVersionValue);
            }
            proof {
                let a: Seq<LinkFinding> = if !shell {
                    seq![LinkFinding::NoAppShell]
                } else {
                    Seq::empty()
                };
                let b: Seq<LinkFinding> = if hits < 2 {
                    seq![LinkFinding::RepoPropsMissing(hits)]
                } else {
                    Seq::empty()
                };
                let c: Seq<LinkFinding> = if !show {
                    seq![LinkFinding::MissingShowVersion]
                } else {
                    Seq::empty()
                };
                let d: Seq<LinkFinding> = if !v1 && !v2 {
                    seq![LinkFinding::MissingVersionValue]
                } else {
                    Seq::empty()
                };
                assert(s1 =~= a);
                assert(s2 =~= a + b);
                assert(s3 =~= a + b + c);
                assert(findings@ =~= a + b + c + d);
            }
            if findings.len() == 0 {
                let mut ok: Vec<LinkFinding> = Vec::new();
                ok.push(LinkFinding::Passed(hits));
                assert(ok@ =~= seq![LinkFinding::Passed(hits)]);
                LinkCheck { findings: ok, failed: false }
            } else {
                LinkCheck { findings, failed: true }
            }
        },
        _ => {
            let mut findings: Vec<LinkFinding> = Vec::new();
            findings.push(LinkFinding::PatternError);
            assert(findings@ =~= seq![LinkFinding::PatternError]);
            LinkCheck { findings, failed: true }
        },
    }
}

/// The header and the footer each need the repo prop: for a frontend app
/// (not the server-rendered one) whose patterns compile, fewer than two
/// `repo: Some("{name}")` props in its sources is reported with their count
/// and fails the check (no `ok` line); two or more are never reported as
/// missing.
pub proof fn law_repo_props_needed(inp: LinkCheckInput, files: Seq<Seq<char>>, hits: usize)
    requires
        inp.name@ != SERVER_RENDERED_APP@,
        inp.frontend_sources matches Some(f) && texts(f@) == files,
        total_matches_spec(repo_prop_pattern(inp.name@), files) == Some(hits),
        any_file_matches_spec("AppShell"@, files) is Some,
        any_file_matches_spec("show_version:"@, files) is Some,
        any_file_matches_spec("version:\\s*(Some\\(|self\\.|env!|version)"@, files) is Some,
        any_file_matches_spec("^\\s+version,"@, files) is Some,
    ensures
        hits < 2 ==> {
            &&& link_check_spec(inp).1
            &&& link_check_spec(inp).0.contains(LinkFinding::RepoPropsMissing(hits))
            &&& !link_check_spec(inp).0.contains(LinkFinding::Passed(hits))
        },
        hits >= 2 ==> !link_check_spec(inp).0.contains(LinkFinding::RepoPropsMissing(hits)),
{
    let r = link_check_spec(inp);
    let shell = any_file_matches_spec("AppShell"@, files)->0;
    let show = any_file_matches_spec("show_version:"@, files)->0;
    let v1 = any_file_matches_spec("version:\\s*(Some\\(|self\\.|env!|version)"@, files)->0;
    let v2 = any_file_matches_spec("^\\s+version,"@, files)->0;
    let a: Seq<LinkFinding> = if !shell {
        seq![LinkFinding::NoAppShell]
    } else {
        Seq::empty()
    };
    let b: Seq<LinkFinding> = if hits < 2 {
        seq![LinkFinding::RepoPropsMissing(hits)]
    } else {
        Seq::empty()
    };
    let c: Seq<LinkFinding> = if !show {
        seq![LinkFinding::MissingShowVersion]
    } else {
        Seq::empty()
    };
    let d: Seq<LinkFinding> = if !v1 && !v2 {
        seq![LinkFinding::MissingVersionValue]
    } else {
        Seq::empty()
    };
    let fs = a + b + c + d;
    assert(frontend_spec(inp.name@, files) == if fs.len() == 0 {
        Some((seq![LinkFinding::Passed(hits)], false))
    } else {
        Some((fs, true))
    });
    if hits < 2 {
        assert(fs[a.len() as int] == LinkFinding::RepoPropsMissing(hits));
        assert(r.0 == fs);
        assert forall|i: int| 0 <= i < fs.len() implies fs[i] != LinkFinding::Passed(hits) by {
            if i < a.len() {
            } else if i < a.len() + b.len() {
            } else if i < a.len() + b.len() + c.len() {
            } else {
            }
        }
    } else {
        if fs.len() == 0 {
            assert(r.0 =~= seq![LinkFinding::Passed(hits)]);
        } else {
            assert(r.0 == fs);
            assert forall|i: int| 0 <= i < fs.len() implies fs[i] != LinkFinding::RepoPropsMissing(
                hits,
            ) by {
                if i < a.len() {
                } else if i < a.len() + b.len() {
                } else if i < a.len() + b.len() + c.len() {
                } else {
                }
            }
        }
    }
}

} // verus!
