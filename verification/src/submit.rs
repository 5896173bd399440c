//! The anonymous survey submission: the profile that is sent, the requests that send it,
//! and the order in which the two endpoints are tried.
use vstd::prelude::*;
use crate::text::{push_str, push_decimal, decimal};
use crate::hardware::MonitorInfo;
use crate::score::OmaRankResult;
use crate::report::{round_tenths, rounded_tenths};

verus! {

broadcast use vstd::string::group_string_axioms;

/// The anonymous hardware profile sent to the survey. `ram_gb_tenths` is the memory
/// size in tenths of a GiB.
pub struct OmaStatPayload {
    pub schema_version: u32,
    pub timestamp_epoch: u64,
    pub omarank_score: u32,
    pub tier_name: String,
    pub cpu_model: String,
    pub cpu_cores: usize,
    pub cpu_threads: usize,
    pub gpu_model: String,
    pub gpu_driver: String,
    pub ram_gb_tenths: u64,
    pub ram_type: String,
    pub ram_speed_mts: u32,
    pub mobo_vendor: String,
    pub mobo_name: String,
    pub chipset: String,
    pub primary_display: String,
    pub display_count: usize,
    pub storage_type: String,
    pub storage_model: String,
    pub os_name: String,
}

/// The version of the profile's layout.
pub const SCHEMA_VERSION: u32 = 2;

/// The first monitor as `WxH @ RHz` (refresh rounded to whole hertz, halves to even), or
/// `1920x1080 @ 60Hz` when there is none.
pub open spec fn primary_display_of(ms: Seq<MonitorInfo>) -> Seq<char> {
    if ms.len() > 0 {
        decimal(ms[0].width as nat) + "x"@ + decimal(ms[0].height as nat) + " @ "@ + decimal(
            round_tenths(ms[0].refresh_rate_tenths as nat),
        ) + "Hz"@
    } else {
        "1920x1080 @ 60Hz"@
    }
}

/// The first monitor as the profile describes it.
pub fn primary_display(ms: &Vec<MonitorInfo>) -> (r: String)
    ensures
        r@ == primary_display_of(ms@),
{
    if ms.len() == 0 {
        return "1920x1080 @ 60Hz".to_owned();
    }
    let mut r = String::new();
    push_decimal(&mut r, ms[0].width as u128);
    push_str(&mut r, "x");
    push_decimal(&mut r, ms[0].height as u128);
    push_str(&mut r, " @ ");
    push_decimal(&mut r, rounded_tenths(ms[0].refresh_rate_tenths as u64) as u128);
    push_str(&mut r, "Hz");
    r
}

/// The profile of a score card, stamped with `epoch` (seconds since the Unix epoch).
pub fn create_survey_payload(result: &OmaRankResult, epoch: u64) -> (r: OmaStatPayload)
    ensures
        r.schema_version == SCHEMA_VERSION,
        r.timestamp_epoch == epoch,
        r.omarank_score == result.total_score,
        r.tier_name == result.tier_name,
        r.cpu_model == result.hardware.cpu_name,
        r.cpu_cores == result.hardware.cpu_cores,
        r.cpu_threads == result.hardware.cpu_threads,
        r.gpu_model == result.hardware.gpu_name,
        r.gpu_driver == result.hardware.gpu_driver,
        r.ram_gb_tenths == result.hardware.ram_total_gb_tenths,
        r.ram_type == result.hardware.ram_type,
        r.ram_speed_mts == result.hardware.ram_speed_mts,
        r.mobo_vendor == result.hardware.mobo_vendor,
        r.mobo_name == result.hardware.mobo_name,
        r.chipset == result.hardware.chipset,
        r.primary_display@ == primary_display_of(result.hardware.monitors@),
        r.display_count == result.hardware.monitors@.len(),
        r.storage_type == result.hardware.storage_type,
        r.storage_model == result.hardware.storage_model,
        r.os_name == result.hardware.os_name,
{
    let hw = &result.hardware;
    OmaStatPayload {
        schema_version: SCHEMA_VERSION,
        timestamp_epoch: epoch,
        omarank_score: result.total_score,
        tier_name: result.tier_name.clone(),
        cpu_model: hw.cpu_name.clone(),
        cpu_cores: hw.cpu_cores,
        cpu_threads: hw.cpu_threads,
        gpu_model: hw.gpu_name.clone(),
        gpu_driver: hw.gpu_driver.clone(),
        ram_gb_tenths: hw.ram_total_gb_tenths,
        ram_type: hw.ram_type.clone(),
        ram_speed_mts: hw.ram_speed_mts,
        mobo_vendor: hw.mobo_vendor.clone(),
        mobo_name: hw.mobo_name.clone(),
        chipset: hw.chipset.clone(),
        primary_display: primary_display(&hw.monitors),
        display_count: hw.monitors.len(),
        storage_type: hw.storage_type.clone(),
        storage_model: hw.storage_model.clone(),
        os_name: hw.os_name.clone(),
    }
}

// ---------------------------------------------------------------- Sending

/// A `curl` run that posts the profile.
pub struct CurlRequest {
    /// The arguments after the program name.
    pub args: Vec<String>,
    /// How long the run may take in all, in seconds.
    pub deadline_secs: u64,
    /// The most bytes of its output that are kept.
    pub output_limit: usize,
}

/// The most bytes of a reply that are kept.
pub const REPLY_LIMIT: usize = 4096;

/// The official survey endpoint, tried first.
pub open spec fn official_endpoint() -> Seq<char> {
    "https://omastat.omarchy.org/api/survey/v1"@
}

/// The community deployment, tried when the official endpoint gives no reply.
pub open spec fn community_endpoint() -> Seq<char> {
    "https://omastat.ozan-zdil.workers.dev/api/survey/v1"@
}

/// The `curl` arguments that post `json` to `endpoint`, giving up after `max_time`
/// seconds.
pub open spec fn curl_args_of(json: Seq<char>, endpoint: Seq<char>, max_time: Seq<char>) -> Seq<
    Seq<char>,
> {
    seq![
        "-s"@,
        "-S"@,
        "--max-time"@,
        max_time,
        "-X"@,
        "POST"@,
        "-H"@,
        "Content-Type: application/json"@,
        "-H"@,
        "User-Agent: OmaRank-Engine/1.0"@,
        "-d"@,
        json,
        endpoint,
    ]
}

/// The views of a list of strings.
pub open spec fn arg_views(v: Seq<String>) -> Seq<Seq<char>> {
    v.map_values(|s: String| s@)
}

/// Whether `r` posts `json` to the official endpoint (`curl` gives up after 2 s, the run
/// after 3 s) or, for `fallback`, to the community one (3 s and 4 s).
pub open spec fn is_curl_request(r: CurlRequest, json: Seq<char>, fallback: bool) -> bool {
    &&& arg_views(r.args@) == if fallback {
        curl_args_of(json, community_endpoint(), "3"@)
    } else {
        curl_args_of(json, official_endpoint(), "2"@)
    }
    &&& r.deadline_secs == if fallback {
        4u64
    } else {
        3u64
    }
    &&& r.output_limit == REPLY_LIMIT
}

/// The request that posts `json` to the official endpoint, or for `fallback` to the
/// community one.
pub fn curl_request(json: &str, fallback: bool) -> (r: CurlRequest)
    ensures
        is_curl_request(r, json@, fallback),
{
    let mut args: Vec<String> = Vec::new();
    args.push("-s".to_owned());
    args.push("-S".to_owned());
    args.push("--max-time".to_owned());
    args.push(
        if fallback {
            "3".to_owned()
        } else {
            "2".to_owned()
        },
    );
    args.push("-X".to_owned());
    args.push("POST".to_owned());
    args.push("-H".to_owned());
    args.push("Content-Type: application/json".to_owned());
    args.push("-H".to_owned());
    args.push("User-Agent: OmaRank-Engine/1.0".to_owned());
    args.push("-d".to_owned());
    args.push(json.to_owned());
    args.push(
        if fallback {
            "https://omastat.ozan-zdil.workers.dev/api/survey/v1".to_owned()
        } else {
            "https://omastat.omarchy.org/api/survey/v1".to_owned()
        },
    );
    let r = CurlRequest {
        args,
        deadline_secs: if fallback {
            4
        } else {
            3
        },
        output_limit: REPLY_LIMIT,
    };
    assert(arg_views(r.args@) =~= if fallback {
        curl_args_of(json@, community_endpoint(), "3"@)
    } else {
        curl_args_of(json@, official_endpoint(), "2"@)
    });
    r
}

/// Where a submission stands.
pub enum SubmitPhase {
    /// Waiting for the reply of the official endpoint.
    AwaitOfficial,
    /// Waiting for the reply of the community deployment.
    AwaitCommunity,
    /// Nothing more is sent.
    Done,
}

/// What the caller is to do next.
pub enum SubmitAction {
    /// Run `curl` with this request and report whether any reply came back.
    Send(CurlRequest),
    /// Sending is over: record the submission in the survey state; `delivered` says
    /// whether a server replied.
    Record { delivered: bool },
}

/// A submission of the profile `json`.
pub struct Submission {
    pub json: String,
    pub phase: SubmitPhase,
}

/// Whether `a` is what follows a reply (`answered`) or its absence in `phase`: a reply
/// ends the sending as delivered; no reply from the official endpoint sends to the
/// community one; no reply from that ends it as not delivered.
pub open spec fn submit_next(phase: SubmitPhase, json: Seq<char>, answered: bool, next: SubmitPhase, a: SubmitAction) -> bool {
    if answered {
        next == SubmitPhase::Done && a == SubmitAction::Record { delivered: true }
    } else {
        match phase {
            SubmitPhase::AwaitOfficial => next == SubmitPhase::AwaitCommunity && (a matches SubmitAction::Send(r) && is_curl_request(r, json, true)),
            _ => next == SubmitPhase::Done && a == SubmitAction::Record { delivered: false },
        }
    }
}

impl Submission {
    /// Starts submitting `json`: the official endpoint is tried first.
    pub fn start(json: String) -> (r: (Submission, SubmitAction))
        ensures
            r.0.json == json,
            r.0.phase == SubmitPhase::AwaitOfficial,
            r.1 matches SubmitAction::Send(req) && is_curl_request(req, json@, false),
    {
        let req = curl_request(json.as_str(), false);
        (Submission { json, phase: SubmitPhase::AwaitOfficial }, SubmitAction::Send(req))
    }

    /// Takes whether the last request got a reply, and says what to do next.
    pub fn on_reply(&mut self, answered: bool) -> (r: SubmitAction)
        ensures
            final(self).json == old(self).json,
            submit_next(old(self).phase, old(self).json@, answered, final(self).phase, r),
    {
        if answered {
            self.phase = SubmitPhase::Done;
            return SubmitAction::Record { delivered: true };
        }
        match self.phase {
            SubmitPhase::AwaitOfficial => {
                self.phase = SubmitPhase::AwaitCommunity;
                SubmitAction::Send(curl_request(self.json.as_str(), true))
            },
            _ => {
                self.phase = SubmitPhase::Done;
                SubmitAction::Record { delivered: false }
            },
        }
    }
}


/// A submission sends at most twice, the official endpoint first: only a silent official
/// endpoint leads to a second request, to the community deployment, and after that, or
/// after any reply, the submission is recorded; a reply is always recorded as delivered.
pub proof fn law_submission_tries_each_endpoint_once(
    phase: SubmitPhase,
    json: Seq<char>,
    answered: bool,
    next: SubmitPhase,
    a: SubmitAction,
)
    requires
        submit_next(phase, json, answered, next, a),
    ensures
        a is Send ==> (phase is AwaitOfficial && !answered && next is AwaitCommunity),
        a matches SubmitAction::Send(r) ==> is_curl_request(r, json, true),
        (phase is AwaitCommunity || phase is Done || answered) ==> (a is Record && next is Done),
        a matches SubmitAction::Record { delivered } ==> delivered == answered,
{
}

}
