use vstd::prelude::*;
use vstd::string::*;

use crate::text::texts;

verus! {

/// What the app needs from the machine before it can record and transcribe,
/// and what is missing.
#[derive(Debug, PartialEq, Eq)]
pub struct RuntimeHealth {
    pub ffmpeg_available: bool,
    pub coli_available: bool,
    pub osascript_available: bool,
    pub ready: bool,
    pub issues: Vec<String>,
}

/// The issue reported when `ffmpeg` cannot be found.
pub open spec fn ffmpeg_missing_issue() -> Seq<char> {
    "ffmpeg is missing. Install it with: brew install ffmpeg"@
}

/// The issue reported when `coli` cannot be found.
pub open spec fn coli_missing_issue() -> Seq<char> {
    "coli is missing or unavailable. Install it before starting transcription."@
}

/// The issue reported when `osascript` cannot be found.
pub open spec fn osascript_missing_issue() -> Seq<char> {
    "osascript is unavailable, so simulated paste may not work."@
}

/// One issue for each unavailable tool, in the order ffmpeg, coli, osascript.
pub open spec fn expected_issues(ffmpeg: bool, coli: bool, osascript: bool) -> Seq<Seq<char>> {
    (if ffmpeg { Seq::empty() } else { seq![ffmpeg_missing_issue()] })
        + (if coli { Seq::empty() } else { seq![coli_missing_issue()] })
        + (if osascript { Seq::empty() } else { seq![osascript_missing_issue()] })
}

/// Recording and transcription need ffmpeg and coli; paste simulation is optional.
pub open spec fn expected_ready(ffmpeg: bool, coli: bool) -> bool {
    ffmpeg && coli
}

impl RuntimeHealth {
    /// The report that the three availability flags determine.
    pub open spec fn reports(&self, ffmpeg: bool, coli: bool, osascript: bool) -> bool {
        &&& self.ffmpeg_available == ffmpeg
        &&& self.coli_available == coli
        &&& self.osascript_available == osascript
        &&& self.ready == expected_ready(ffmpeg, coli)
        &&& texts(self.issues@) == expected_issues(ffmpeg, coli, osascript)
    }
}

/// Builds the health report from the availability of ffmpeg, coli and osascript.
pub fn build_runtime_health(
    ffmpeg_available: bool,
    coli_available: bool,
    osascript_available: bool,
) -> (health: RuntimeHealth)
    ensures
        health.reports(ffmpeg_available, coli_available, osascript_available),
{
    let mut issues: Vec<String> = Vec::new();
    if !ffmpeg_available {
        issues.push(String::from_str("ffmpeg is missing. Install it with: brew install ffmpeg"));
    }
    assert(texts(issues@) =~= (if ffmpeg_available { Seq::empty() } else { seq![ffmpeg_missing_issue()] }));
    let ghost after_ffmpeg = texts(issues@);
    if !coli_available {
        issues.push(
            String::from_str(
                "coli is missing or unavailable. Install it before starting transcription.",
            ),
        );
    }
    assert(texts(issues@) =~= after_ffmpeg + (if coli_available { Seq::empty() } else { seq![coli_missing_issue()] }));
    let ghost after_coli = texts(issues@);
    if !osascript_available {
        issues.push(
            String::from_str("osascript is unavailable, so simulated paste may not work."),
        );
    }
    assert(texts(issues@) =~= after_coli + (if osascript_available { Seq::empty() } else { seq![osascript_missing_issue()] }));
    RuntimeHealth {
        ffmpeg_available,
        coli_available,
        osascript_available,
        ready: ffmpeg_available && coli_available,
        issues,
    }
}

/// The number of tools among ffmpeg, coli and osascript that are unavailable.
pub open spec fn missing_count(ffmpeg: bool, coli: bool, osascript: bool) -> int {
    (if ffmpeg { 0int } else { 1int }) + (if coli { 0int } else { 1int }) + (if osascript {
        0int
    } else {
        1int
    })
}

/// Each unavailable tool is reported by exactly one issue, so there are as
/// many issues as missing tools, and none at all when every tool is there.
/// A ready report can only carry the osascript issue.
pub proof fn lemma_health_reports_each_missing_tool(ffmpeg: bool, coli: bool, osascript: bool)
    ensures
        expected_ready(ffmpeg, coli) <==> (ffmpeg && coli),
        expected_issues(ffmpeg, coli, osascript).len() == missing_count(ffmpeg, coli, osascript),
        expected_issues(ffmpeg, coli, osascript).len() == 0 <==> (ffmpeg && coli && osascript),
        expected_issues(ffmpeg, coli, osascript).contains(
            "ffmpeg is missing. Install it with: brew install ffmpeg"@,
        ) <==> !ffmpeg,
        expected_issues(ffmpeg, coli, osascript).contains(
            "coli is missing or unavailable. Install it before starting transcription."@,
        ) <==> !coli,
        expected_issues(ffmpeg, coli, osascript).contains(
            "osascript is unavailable, so simulated paste may not work."@,
        ) <==> !osascript,
        !ffmpeg ==> expected_issues(ffmpeg, coli, osascript)[0]
            == "ffmpeg is missing. Install it with: brew install ffmpeg"@,
        !osascript ==> expected_issues(ffmpeg, coli, osascript).last()
            == "osascript is unavailable, so simulated paste may not work."@,
        expected_ready(ffmpeg, coli) ==> expected_issues(ffmpeg, coli, osascript) =~= (if osascript {
            Seq::empty()
        } else {
            seq!["osascript is unavailable, so simulated paste may not work."@]
        }),
{
    let a: Seq<Seq<char>> = if ffmpeg { Seq::empty() } else { seq![ffmpeg_missing_issue()] };
    let b: Seq<Seq<char>> = if coli { Seq::empty() } else { seq![coli_missing_issue()] };
    let c: Seq<Seq<char>> = if osascript { Seq::empty() } else { seq![osascript_missing_issue()] };
    let all = expected_issues(ffmpeg, coli, osascript);
    assert(all =~= a + b + c);
    assert(ffmpeg_missing_issue() != coli_missing_issue()) by {
        reveal_strlit("ffmpeg is missing. Install it with: brew install ffmpeg");
        reveal_strlit("coli is missing or unavailable. Install it before starting transcription.");
        assert(ffmpeg_missing_issue()[0] != coli_missing_issue()[0]);
    }
    assert(ffmpeg_missing_issue() != osascript_missing_issue()) by {
        reveal_strlit("ffmpeg is missing. Install it with: brew install ffmpeg");
        reveal_strlit("osascript is unavailable, so simulated paste may not work.");
        assert(ffmpeg_missing_issue()[0] != osascript_missing_issue()[0]);
    }
    assert(coli_missing_issue() != osascript_missing_issue()) by {
        reveal_strlit("coli is missing or unavailable. Install it before starting transcription.");
        reveal_strlit("osascript is unavailable, so simulated paste may not work.");
        assert(coli_missing_issue()[0] != osascript_missing_issue()[0]);
    }
    if !ffmpeg {
        assert(all[0] == ffmpeg_missing_issue());
    }
    if !coli {
        assert(all[a.len() as int] == coli_missing_issue());
    }
    if !osascript {
        assert(all[(a.len() + b.len()) as int] == osascript_missing_issue());
    }
    assert(all.contains(ffmpeg_missing_issue()) ==> !ffmpeg);
    assert(all.contains(coli_missing_issue()) ==> !coli);
    assert(all.contains(osascript_missing_issue()) ==> !osascript);
}

/// Readiness depends on ffmpeg and coli alone: two reports that differ only
/// in whether osascript is available are equally ready.
pub proof fn lemma_ready_ignores_osascript(
    a: RuntimeHealth,
    b: RuntimeHealth,
    ffmpeg: bool,
    coli: bool,
    osascript_a: bool,
    osascript_b: bool,
)
    requires
        a.reports(ffmpeg, coli, osascript_a),
        b.reports(ffmpeg, coli, osascript_b),
    ensures
        a.ready == b.ready,
        a.ready == (ffmpeg && coli),
{
}

/// What any report built from the three flags says: it is ready exactly when
/// ffmpeg and coli are available, it lists as many issues as tools are
/// missing, and it names each missing tool and no available one.
pub proof fn lemma_report_names_missing_tools(
    health: RuntimeHealth,
    ffmpeg: bool,
    coli: bool,
    osascript: bool,
)
    requires
        health.reports(ffmpeg, coli, osascript),
    ensures
        health.ready == (ffmpeg && coli),
        health.ffmpeg_available == ffmpeg && health.coli_available == coli
            && health.osascript_available == osascript,
        health.issues@.len() == missing_count(ffmpeg, coli, osascript),
        texts(health.issues@).contains("ffmpeg is missing. Install it with: brew install ffmpeg"@)
            <==> !ffmpeg,
        texts(health.issues@).contains(
            "coli is missing or unavailable. Install it before starting transcription."@,
        ) <==> !coli,
        texts(health.issues@).contains(
            "osascript is unavailable, so simulated paste may not work."@,
        ) <==> !osascript,
{
    lemma_health_reports_each_missing_tool(ffmpeg, coli, osascript);
}

} // verus!
