//! Multi-instance compatibility analysis: known anti-cheat, DRM and
//! launcher files in a game's directory become issues with workarounds, and
//! the issues lower a score out of 100. Looking at the game's directory
//! happens outside the library.

use vstd::prelude::*;
use crate::errors::HydraError;
use crate::text::{concat, contains, has_substring, lowercase, owned, strings_view, to_lowercase};

verus! {

/// How serious a compatibility issue is.
#[derive(Debug, Clone, Copy, PartialEq, Eq, Structural)]
pub enum IssueSeverity {
    Info,
    Warning,
    Critical,
}

/// A problem found with running a game several times.
#[derive(Debug)]
pub struct CompatibilityIssue {
    pub severity: IssueSeverity,
    pub description: String,
    pub workaround: Option<String>,
}

/// The result of a compatibility analysis.
#[derive(Debug)]
pub struct CompatibilityReport {
    pub game_path: String,
    /// From 0 (worst) to 100.
    pub compatibility_score: u8,
    pub issues: Vec<CompatibilityIssue>,
    pub recommendations: Vec<String>,
}

/// Analyses games for multi-instance compatibility.
pub struct CompatibilityChecker;

/// The value of an issue: severity, description and workaround as
/// characters.
pub open spec fn issue_view(i: CompatibilityIssue) -> (IssueSeverity, Seq<char>, Option<Seq<char>>) {
    (i.severity, i.description@, match i.workaround {
        Some(w) => Some(w@),
        None => None,
    })
}

/// The values of a list of issues.
pub open spec fn issues_view(v: Seq<CompatibilityIssue>) -> Seq<(IssueSeverity, Seq<char>, Option<Seq<char>>)> {
    v.map_values(|i: CompatibilityIssue| issue_view(i))
}

/// Files whose presence next to the executable is a compatibility issue:
/// anti-cheat systems (indices 0 to 3), DRM systems (4 to 6) and game
/// launchers (7 to 9).
pub open spec fn probe_names() -> Seq<Seq<char>> {
    seq![
        "EasyAntiCheat.exe"@, "BEService.exe"@, "VAC.dll"@, "steam_api.dll"@,
        "steam_api64.dll"@, "denuvo.dll"@, "activation.dll"@,
        "launcher.exe"@, "updater.exe"@, "patcher.exe"@,
    ]
}

/// The names of `probe_names`, to be looked up next to the executable.
pub fn compatibility_probe_files() -> (v: Vec<&'static str>)
    ensures
        v@.map_values(|s: &'static str| s@) == probe_names(),
{
    let v = vec![
        "EasyAntiCheat.exe", "BEService.exe", "VAC.dll", "steam_api.dll",
        "steam_api64.dll", "denuvo.dll", "activation.dll",
        "launcher.exe", "updater.exe", "patcher.exe",
    ];
    assert(v@.map_values(|s: &'static str| s@) =~= probe_names());
    v
}

/// The issue raised when probe file `i` is present.
pub open spec fn probe_issue(i: int) -> (IssueSeverity, Seq<char>, Option<Seq<char>>) {
    if i < 4 {
        (
            IssueSeverity::Critical,
            "Anti-cheat system detected: "@ + probe_names()[i],
            Some("Consider using different user accounts or sandboxing"@),
        )
    } else if i < 7 {
        (
            IssueSeverity::Warning,
            "DRM system detected: "@ + probe_names()[i],
            Some("May require separate game installations per instance"@),
        )
    } else {
        (
            IssueSeverity::Info,
            "Game launcher detected: "@ + probe_names()[i],
            Some("Launch game executable directly, not through launcher"@),
        )
    }
}

/// The anti-cheat files looked for.
pub open spec fn is_anti_cheat_file(s: Seq<char>) -> bool {
    s == "EasyAntiCheat.exe"@ || s == "BEService.exe"@ || s == "VAC.dll"@ || s == "steam_api.dll"@
}

/// The DRM files looked for.
pub open spec fn is_drm_file(s: Seq<char>) -> bool {
    s == "steam_api64.dll"@ || s == "denuvo.dll"@ || s == "activation.dll"@
}

/// The game launchers looked for.
pub open spec fn is_launcher_file(s: Seq<char>) -> bool {
    s == "launcher.exe"@ || s == "updater.exe"@ || s == "patcher.exe"@
}

proof fn lemma_probe_kinds(i: int)
    requires
        0 <= i < probe_names().len(),
    ensures
        is_anti_cheat_file(probe_names()[i]) <==> i < 4,
        is_drm_file(probe_names()[i]) <==> 4 <= i < 7,
        is_launcher_file(probe_names()[i]) <==> 7 <= i < 10,
{
    reveal_strlit("EasyAntiCheat.exe");
    reveal_strlit("BEService.exe");
    reveal_strlit("VAC.dll");
    reveal_strlit("steam_api.dll");
    reveal_strlit("steam_api64.dll");
    reveal_strlit("denuvo.dll");
    reveal_strlit("activation.dll");
    reveal_strlit("launcher.exe");
    reveal_strlit("updater.exe");
    reveal_strlit("patcher.exe");
    assert("EasyAntiCheat.exe"@.len() == 17);
    assert("BEService.exe"@.len() == 13);
    assert("VAC.dll"@.len() == 7);
    assert("steam_api.dll"@.len() == 13);
    assert("steam_api64.dll"@.len() == 15);
    assert("denuvo.dll"@.len() == 10);
    assert("activation.dll"@.len() == 14);
    assert("launcher.exe"@.len() == 12);
    assert("updater.exe"@.len() == 11);
    assert("patcher.exe"@.len() == 11);
    let s = probe_names()[i];
    if i == 0 {
        assert(s == "EasyAntiCheat.exe"@);
    } else if i == 1 {
        assert(s == "BEService.exe"@);
    } else if i == 2 {
        assert(s == "VAC.dll"@);
    } else if i == 3 {
        assert(s == "steam_api.dll"@);
    } else if i == 4 {
        assert(s == "steam_api64.dll"@);
    } else if i == 5 {
        assert(s == "denuvo.dll"@);
    } else if i == 6 {
        assert(s == "activation.dll"@);
    } else if i == 7 {
        assert(s == "launcher.exe"@);
    } else if i == 8 {
        assert(s == "updater.exe"@);
    } else {
        assert(s == "patcher.exe"@);
    }
}

/// Every probe file is an anti-cheat file, a DRM file or a launcher. A
/// present anti-cheat file (such as `steam_api.dll`) is a critical issue
/// that names it, a DRM file a warning, a launcher a note; each comes with
/// its workaround.
pub proof fn probe_issues_by_kind(i: int)
    requires
        0 <= i < probe_names().len(),
    ensures
        is_anti_cheat_file(probe_names()[i]) || is_drm_file(probe_names()[i]) || is_launcher_file(probe_names()[i]),
        is_anti_cheat_file(probe_names()[i]) ==> probe_issue(i) == (
            IssueSeverity::Critical,
            "Anti-cheat system detected: "@ + probe_names()[i],
            Some("Consider using different user accounts or sandboxing"@),
        ),
        is_drm_file(probe_names()[i]) ==> probe_issue(i) == (
            IssueSeverity::Warning,
            "DRM system detected: "@ + probe_names()[i],
            Some("May require separate game installations per instance"@),
        ),
        is_launcher_file(probe_names()[i]) ==> probe_issue(i) == (
            IssueSeverity::Info,
            "Game launcher detected: "@ + probe_names()[i],
            Some("Launch game executable directly, not through launcher"@),
        ),
{
    lemma_probe_kinds(i);
}

/// Probe file `i` was found (missing values count as absent).
pub open spec fn probe_present(present: Seq<bool>, i: int) -> bool {
    0 <= i < present.len() && present[i]
}

/// The issues raised by the first `k` probe files, in probe order.
pub open spec fn issues_upto(present: Seq<bool>, k: int) -> Seq<(IssueSeverity, Seq<char>, Option<Seq<char>>)>
    decreases k,
{
    if k <= 0 {
        Seq::empty()
    } else if probe_present(present, k - 1) {
        issues_upto(present, k - 1).push(probe_issue(k - 1))
    } else {
        issues_upto(present, k - 1)
    }
}

/// The recommendations made for the first `k` probe files: one per launcher
/// found.
pub open spec fn launcher_recommendations_upto(present: Seq<bool>, k: int) -> Seq<Seq<char>>
    decreases k,
{
    if k <= 0 {
        Seq::empty()
    } else if k - 1 >= 7 && probe_present(present, k - 1) {
        launcher_recommendations_upto(present, k - 1).push("Use direct game executable instead of launcher"@)
    } else {
        launcher_recommendations_upto(present, k - 1)
    }
}

/// The recommendations of a report: one per launcher found, then one about
/// ports when the lower-cased executable name mentions "online" or
/// "multiplayer".
pub open spec fn expected_recommendations(present: Seq<bool>, lower_name: Seq<char>) -> Seq<Seq<char>> {
    let r = launcher_recommendations_upto(present, 10);
    if has_substring(lower_name, "online"@) || has_substring(lower_name, "multiplayer"@) {
        r.push("Ensure network ports are properly configured"@)
    } else {
        r
    }
}

/// The score penalty of an issue.
pub open spec fn penalty(s: IssueSeverity) -> int {
    match s {
        IssueSeverity::Info => 5,
        IssueSeverity::Warning => 15,
        IssueSeverity::Critical => 40,
    }
}

/// The score after subtracting, one issue at a time and never going below
/// zero, the penalties of the issues from 100.
pub open spec fn score_of(sevs: Seq<IssueSeverity>) -> int
    decreases sevs.len(),
{
    if sevs.len() == 0 {
        100
    } else {
        let s = score_of(sevs.drop_last()) - penalty(sevs.last());
        if s < 0 { 0 } else { s }
    }
}

/// The sum of the penalties of the issues.
pub open spec fn total_penalty(sevs: Seq<IssueSeverity>) -> int
    decreases sevs.len(),
{
    if sevs.len() == 0 {
        0
    } else {
        total_penalty(sevs.drop_last()) + penalty(sevs.last())
    }
}

/// The severities of a list of issues.
pub open spec fn severities(v: Seq<(IssueSeverity, Seq<char>, Option<Seq<char>>)>) -> Seq<IssueSeverity> {
    v.map_values(|i: (IssueSeverity, Seq<char>, Option<Seq<char>>)| i.0)
}

/// The compatibility score is 100 less the total penalty of the issues, and
/// never less than zero.
pub proof fn score_is_clamped_total(sevs: Seq<IssueSeverity>)
    ensures
        score_of(sevs) == if 100 - total_penalty(sevs) < 0 { 0 } else { 100 - total_penalty(sevs) },
        0 <= score_of(sevs) <= 100,
    decreases sevs.len(),
{
    if sevs.len() > 0 {
        score_is_clamped_total(sevs.drop_last());
        lemma_total_penalty_nonneg(sevs.drop_last());
    }
}

proof fn lemma_total_penalty_nonneg(sevs: Seq<IssueSeverity>)
    ensures
        total_penalty(sevs) >= 0,
    decreases sevs.len(),
{
    if sevs.len() > 0 {
        lemma_total_penalty_nonneg(sevs.drop_last());
    }
}

impl CompatibilityChecker {
    /// The issue raised when probe file `i` (named `name`) is present.
    fn issue_for_probe(i: usize, name: &str) -> (issue: CompatibilityIssue)
        requires
            i < 10,
            name@ == probe_names()[i as int],
        ensures
            issue_view(issue) == probe_issue(i as int),
    {
        if i < 4 {
            CompatibilityIssue {
                severity: IssueSeverity::Critical,
                description: concat("Anti-cheat system detected: ", name),
                workaround: Some(owned("Consider using different user accounts or sandboxing")),
            }
        } else if i < 7 {
            CompatibilityIssue {
                severity: IssueSeverity::Warning,
                description: concat("DRM system detected: ", name),
                workaround: Some(owned("May require separate game installations per instance")),
            }
        } else {
            CompatibilityIssue {
                severity: IssueSeverity::Info,
                description: concat("Game launcher detected: ", name),
                workaround: Some(owned("Launch game executable directly, not through launcher")),
            }
        }
    }

    /// The score of a list of issues (see `score_of`).
    pub fn calculate_score(issues: &[CompatibilityIssue]) -> (score: u8)
        ensures
            score == score_of(severities(issues_view(issues@))),
    {
        let ghost sevs = severities(issues_view(issues@));
        let mut score: u8 = 100;
        let mut i: usize = 0;
        while i < issues.len()
            invariant
                sevs == severities(issues_view(issues@)),
                i <= issues@.len(),
                score == score_of(sevs.subrange(0, i as int)),
            decreases issues.len() - i,
        {
            let penalty: u8 = match issues[i].severity {
                IssueSeverity::Info => 5,
                IssueSeverity::Warning => 15,
                IssueSeverity::Critical => 40,
            };
            proof {
                assert(sevs.subrange(0, i + 1).drop_last() =~= sevs.subrange(0, i as int));
                assert(sevs.subrange(0, i + 1).last() == issues@[i as int].severity);
            }
            score = score.saturating_sub(penalty);
            i = i + 1;
        }
        assert(sevs.subrange(0, i as int) =~= sevs);
        score
    }

    /// The compatibility report of a game, given its executable's path as
    /// text, its lower-cased file name (empty when it has none) and, for
    /// each probe file `i` (see `compatibility_probe_files`), whether it
    /// exists next to the executable.
    pub fn analysis_report(game_path: &str, lower_name: &str, present: &[bool]) -> (report: CompatibilityReport)
        ensures
            report.game_path@ == game_path@,
            issues_view(report.issues@) == issues_upto(present@, 10),
            strings_view(report.recommendations@) == expected_recommendations(present@, lower_name@),
            report.compatibility_score == score_of(severities(issues_upto(present@, 10))),
    {
        let names = compatibility_probe_files();
        let mut issues: Vec<CompatibilityIssue> = Vec::new();
        let mut recommendations: Vec<String> = Vec::new();
        let mut i: usize = 0;
        assert(names@.len() == probe_names().len());
        while i < 10
            invariant
                names@.map_values(|s: &'static str| s@) == probe_names(),
                names@.len() == 10,
                i <= 10,
                issues_view(issues@) == issues_upto(present@, i as int),
                strings_view(recommendations@) == launcher_recommendations_upto(present@, i as int),
            decreases 10 - i,
        {
            assert(names@.map_values(|s: &'static str| s@)[i as int] == probe_names()[i as int]);
            assert(names@[i as int]@ == probe_names()[i as int]);
            if i < present.len() && present[i] {
                let ghost before = issues@;
                let ghost before_r = recommendations@;
                issues.push(Self::issue_for_probe(i, names[i]));
                assert(issues_view(issues@) =~= issues_view(before).push(probe_issue(i as int)));
                if i >= 7 {
                    recommendations.push(owned("Use direct game executable instead of launcher"));
                    assert(strings_view(recommendations@) =~= strings_view(before_r).push(
                        "Use direct game executable instead of launcher"@,
                    ));
                }
            }
            i = i + 1;
        }
        if contains(lower_name, "online") || contains(lower_name, "multiplayer") {
            let ghost before_r = recommendations@;
            recommendations.push(owned("Ensure network ports are properly configured"));
            assert(strings_view(recommendations@) =~= strings_view(before_r).push(
                "Ensure network ports are properly configured"@,
            ));
        }
        let score = Self::calculate_score(issues.as_slice());
        CompatibilityReport { game_path: owned(game_path), compatibility_score: score, issues, recommendations }
    }

    /// Analyses a game for multi-instance compatibility. `game_path` is the
    /// executable's path as text, `file_name` its file name when it has a
    /// UTF-8 one, and `present[i]` tells whether probe file `i` (see
    /// `compatibility_probe_files`) exists next to it. The file name is
    /// lower-cased with `str::to_lowercase` (see `analysis_report`). Always
    /// succeeds.
    pub fn analyze_game(game_path: &str, file_name: Option<&str>, present: &[bool]) -> (r: Result<
        CompatibilityReport,
        HydraError,
    >)
        ensures
            r matches Ok(report) && report.game_path@ == game_path@
                && issues_view(report.issues@) == issues_upto(present@, 10)
                && strings_view(report.recommendations@) == expected_recommendations(
                    present@,
                    lowercase(match file_name {
                        Some(n) => n@,
                        None => ""@,
                    }),
                )
                && report.compatibility_score == score_of(severities(issues_upto(present@, 10))),
    {
        let lower = match file_name {
            Some(n) => to_lowercase(n),
            None => to_lowercase(""),
        };
        Ok(Self::analysis_report(game_path, lower.as_str(), present))
    }
}

} // verus!
