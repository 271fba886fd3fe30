//! Boot, install and launch of an app on a device: three runs of the
//! device-management tool, and when no bundle identifier is given a run of
//! the property-list reader between install and launch.
//!
//! The flow decides; the caller runs each tool and reports what came back.
use vstd::prelude::*;
use crate::events::concat2;
use crate::text::{join_path, joined_path, trim, trimmed};

verus! {

/// A request to install and launch an app.
#[derive(Clone, Debug)]
pub struct InstallAndLaunchRequest {
    pub udid: String,
    pub app_path: String,
    pub bundle_id: Option<String>,
}

/// The answer to an install-and-launch request.
#[derive(Clone, Debug)]
pub struct InstallAndLaunchResponse {
    pub success: bool,
    pub message: String,
}

/// One run of an external tool.
#[derive(Debug)]
pub struct ToolRun {
    pub program: String,
    pub args: Vec<String>,
}

/// What a run of a tool came to.
#[derive(Debug)]
pub enum ToolReport {
    /// The tool could not be run; the cause.
    NotRun(String),
    /// The tool ran and exited.
    Exited { success: bool, stdout: String, stderr: String },
}

/// What the flow asks for next.
#[derive(Debug)]
pub enum LaunchStep {
    /// Run this tool and report back.
    Run(ToolRun),
    /// The flow is over: the success message or the failure text.
    Done(Result<String, String>),
}

/// Where the flow stands.
#[derive(Debug)]
pub enum LaunchStage {
    Boot,
    Install,
    ReadBundleId,
    Launch(String),
    Finished,
}

/// An install-and-launch in progress.
#[derive(Debug)]
pub struct LaunchFlow {
    pub udid: String,
    pub app_path: String,
    pub bundle_id: Option<String>,
    pub stage: LaunchStage,
}

/// Whether `step` runs `program` with exactly `args`.
pub open spec fn runs(step: LaunchStep, program: Seq<char>, args: Seq<Seq<char>>) -> bool {
    step matches LaunchStep::Run(t) && t.program@ == program && t.args@.map_values(|a: String| a@) == args
}

/// Whether `step` ends the flow with the failure text `text`.
pub open spec fn fails_with(step: LaunchStep, text: Seq<char>) -> bool {
    step matches LaunchStep::Done(Err(m)) && m@ == text
}

fn text_args2(a: &str, b: &str) -> (r: Vec<String>)
    ensures
        r@.map_values(|s: String| s@) == seq![a@, b@],
{
    let mut v: Vec<String> = Vec::new();
    v.push(String::from_str(a));
    v.push(String::from_str(b));
    assert(v@.map_values(|s: String| s@) =~= seq![a@, b@]);
    v
}

fn simctl(verb: &str, a: &str, b: Option<&str>) -> (r: LaunchStep)
    ensures
        match b {
            Some(b) => runs(r, "xcrun"@, seq!["simctl"@, verb@, a@, b@]),
            None => runs(r, "xcrun"@, seq!["simctl"@, verb@, a@]),
        },
{
    let mut v: Vec<String> = Vec::new();
    v.push(String::from_str("simctl"));
    v.push(String::from_str(verb));
    v.push(String::from_str(a));
    match b {
        Some(b) => {
            v.push(String::from_str(b));
            assert(v@.map_values(|s: String| s@) =~= seq!["simctl"@, verb@, a@, b@]);
        },
        None => {
            assert(v@.map_values(|s: String| s@) =~= seq!["simctl"@, verb@, a@]);
        },
    }
    LaunchStep::Run(ToolRun { program: String::from_str("xcrun"), args: v })
}

fn fail(prefix: &str, cause: &str) -> (r: LaunchStep)
    ensures
        fails_with(r, prefix@ + cause@),
{
    LaunchStep::Done(Err(concat2(prefix, cause)))
}

impl LaunchFlow {
    /// A flow for `request`, and its first step: boot the device.
    pub fn start(request: InstallAndLaunchRequest) -> (r: (LaunchFlow, LaunchStep))
        ensures
            r.0.udid == request.udid,
            r.0.app_path == request.app_path,
            r.0.bundle_id == request.bundle_id,
            r.0.stage is Boot,
            runs(r.1, "xcrun"@, seq!["simctl"@, "boot"@, request.udid@]),
    {
        let step = simctl("boot", request.udid.as_str(), None);
        (
            LaunchFlow {
                udid: request.udid,
                app_path: request.app_path,
                bundle_id: request.bundle_id,
                stage: LaunchStage::Boot,
            },
            step,
        )
    }

    /// The next step once the current run came to `report`.
    ///
    /// A failed boot is tolerated (the device may already be booted), and
    /// the flow goes on to install; any other failure ends the flow.
    pub fn advance(&mut self, report: ToolReport) -> (r: LaunchStep)
        requires
            !(old(self).stage is Finished),
        ensures
            final(self).udid == old(self).udid,
            final(self).app_path == old(self).app_path,
            final(self).bundle_id == old(self).bundle_id,
            r is Done <==> final(self).stage is Finished,
            old(self).stage is Boot ==> match report {
                ToolReport::NotRun(e) => fails_with(r, "Failed to boot simulator: "@ + e@),
                ToolReport::Exited { .. } => final(self).stage is Install && runs(
                    r,
                    "xcrun"@,
                    seq!["simctl"@, "install"@, old(self).udid@, old(self).app_path@],
                ),
            },
            old(self).stage is Install ==> match report {
                ToolReport::NotRun(e) => fails_with(r, "Failed to install app: "@ + e@),
                ToolReport::Exited { success, stderr, .. } => if !success {
                    fails_with(r, "Install failed: "@ + stderr@)
                } else {
                    match old(self).bundle_id {
                        Some(b) => (final(self).stage matches LaunchStage::Launch(x) && x == b) && runs(
                            r,
                            "xcrun"@,
                            seq!["simctl"@, "launch"@, old(self).udid@, b@],
                        ),
                        None => final(self).stage is ReadBundleId && runs(
                            r,
                            "/usr/libexec/PlistBuddy"@,
                            seq!["-c"@, "Print :CFBundleIdentifier"@, joined_path(old(self).app_path@, "Info.plist"@)],
                        ),
                    }
                },
            },
            old(self).stage is ReadBundleId ==> match report {
                ToolReport::NotRun(e) => fails_with(r, "Failed to read bundle ID: "@ + e@),
                ToolReport::Exited { success, stdout, stderr } => if !success {
                    fails_with(r, "Failed to read bundle ID: "@ + stderr@)
                } else {
                    (final(self).stage matches LaunchStage::Launch(x) && x@ == trimmed(stdout@)) && runs(
                        r,
                        "xcrun"@,
                        seq!["simctl"@, "launch"@, old(self).udid@, trimmed(stdout@)],
                    )
                },
            },
            old(self).stage matches LaunchStage::Launch(b) ==> match report {
                ToolReport::NotRun(e) => fails_with(r, "Failed to launch app: "@ + e@),
                ToolReport::Exited { success, stderr, .. } => if !success {
                    fails_with(r, "Launch failed: "@ + stderr@)
                } else {
                    r matches LaunchStep::Done(Ok(m)) && m@ == "App "@ + b@ + " launched successfully"@
                },
            },
    {
        let mut stage = LaunchStage::Finished;
        core::mem::swap(&mut self.stage, &mut stage);
        match stage {
            LaunchStage::Boot => match report {
                ToolReport::NotRun(e) => fail("Failed to boot simulator: ", e.as_str()),
                ToolReport::Exited { .. } => {
                    self.stage = LaunchStage::Install;
                    simctl("install", self.udid.as_str(), Some(self.app_path.as_str()))
                },
            },
            LaunchStage::Install => match report {
                ToolReport::NotRun(e) => fail("Failed to install app: ", e.as_str()),
                ToolReport::Exited { success, stderr, .. } => {
                    if !success {
                        fail("Install failed: ", stderr.as_str())
                    } else {
                        match &self.bundle_id {
                            Some(b) => {
                                let step = simctl("launch", self.udid.as_str(), Some(b.as_str()));
                                self.stage = LaunchStage::Launch(b.clone());
                                step
                            },
                            None => {
                                self.stage = LaunchStage::ReadBundleId;
                                let plist = join_path(self.app_path.as_str(), "Info.plist");
                                let mut args = text_args2("-c", "Print :CFBundleIdentifier");
                                let ghost a0 = args@;
                                args.push(plist);
                                assert(args@.map_values(|s: String| s@) =~= seq![
                                    "-c"@,
                                    "Print :CFBundleIdentifier"@,
                                    joined_path(self.app_path@, "Info.plist"@),
                                ]) by {
                                    assert(a0.map_values(|s: String| s@) =~= seq!["-c"@, "Print :CFBundleIdentifier"@]);
                                    assert(args@ == a0.push(args@.last()));
                                };
                                LaunchStep::Run(ToolRun { program: String::from_str("/usr/libexec/PlistBuddy"), args })
                            },
                        }
                    }
                },
            },
            LaunchStage::ReadBundleId => match report {
                ToolReport::NotRun(e) => fail("Failed to read bundle ID: ", e.as_str()),
                ToolReport::Exited { success, stdout, stderr } => {
                    if !success {
                        fail("Failed to read bundle ID: ", stderr.as_str())
                    } else {
                        let id = String::from_str(trim(stdout.as_str()));
                        let step = simctl("launch", self.udid.as_str(), Some(id.as_str()));
                        self.stage = LaunchStage::Launch(id);
                        step
                    }
                },
            },
            LaunchStage::Launch(b) => match report {
                ToolReport::NotRun(e) => fail("Failed to launch app: ", e.as_str()),
                ToolReport::Exited { success, stderr, .. } => {
                    if !success {
                        fail("Launch failed: ", stderr.as_str())
                    } else {
                        let m = crate::events::concat3("App ", b.as_str(), " launched successfully");
                        LaunchStep::Done(Ok(m))
                    }
                },
            },
            LaunchStage::Finished => LaunchStep::Done(Err(String::new())),
        }
    }
}

impl InstallAndLaunchResponse {
    /// The answer that reports the flow's result.
    pub fn from_result(result: Result<String, String>) -> (r: InstallAndLaunchResponse)
        ensures
            r.success == result is Ok,
            match result {
                Ok(m) => r.message == m,
                Err(e) => r.message == e,
            },
    {
        match result {
            Ok(m) => InstallAndLaunchResponse { success: true, message: m },
            Err(e) => InstallAndLaunchResponse { success: false, message: e },
        }
    }
}

} // verus!
