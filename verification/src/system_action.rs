//! Whitelisted desktop actions: which ones need the user's confirmation,
//! when a request is refused, which command line runs an allowed action,
//! and how its outcome is reported and audited.

use vstd::prelude::*;

use crate::ids::{is_random_uuid_text, new_id};
use crate::models::{ActionParams, SystemActionRequest, SystemActionResult};
use crate::text::{
    concat, contains, contains_text, decode_lossy, opt_text, same_text, starts_with,
    starts_with_text, text_result, texts_of, trim, trimmed, utf8_lossy,
};
use vstd::utf8::encode_utf8;

verus! {

/// Whether an action id names one of the whitelisted desktop actions.
pub open spec fn is_whitelisted(action_id: Seq<char>) -> bool {
    action_id == "open_app"@ || action_id == "open_url"@ || action_id == "switch_app"@
}

/// The risk level of an action: whitelisted actions are medium, anything
/// else (scripts and unknown actions) is high.
pub open spec fn risk_level(action_id: Seq<char>) -> Seq<char> {
    if is_whitelisted(action_id) {
        "medium"@
    } else {
        "high"@
    }
}

/// Whether an action must be confirmed by the user before it runs.
pub open spec fn needs_confirmation(action_id: Seq<char>) -> bool {
    !is_whitelisted(action_id)
}

/// The four action ids the pet knows are pairwise different texts.
proof fn lemma_action_ids_distinct()
    ensures
        "open_app"@ != "open_url"@,
        "open_app"@ != "switch_app"@,
        "open_app"@ != "run_script"@,
        "open_url"@ != "switch_app"@,
        "open_url"@ != "run_script"@,
        "switch_app"@ != "run_script"@,
{
    reveal_strlit("open_app");
    reveal_strlit("open_url");
    reveal_strlit("switch_app");
    reveal_strlit("run_script");
    assert("open_app"@[5] != "open_url"@[5]);
    assert("open_app"@[0] != "switch_app"@[0]);
    assert("open_app"@[0] != "run_script"@[0]);
    assert("open_url"@[0] != "switch_app"@[0]);
    assert("open_url"@[0] != "run_script"@[0]);
    assert("switch_app"@[0] != "run_script"@[0]);
}

/// Law: an action is high-risk exactly when it needs the user's
/// confirmation, and medium-risk otherwise.
pub proof fn law_high_risk_iff_confirmation(action_id: Seq<char>)
    ensures
        risk_level(action_id) == "high"@ <==> needs_confirmation(action_id),
        risk_level(action_id) == "medium"@ <==> !needs_confirmation(action_id),
{
    reveal_strlit("high");
    reveal_strlit("medium");
    assert("high"@[0] != "medium"@[0]);
}

/// Law: a request is never carried out while system control is off, nor
/// without confirmation when its action needs one; every other request
/// goes ahead.
pub proof fn law_refusals(
    step: ExecutionStep,
    audit_id: Seq<char>,
    req: SystemActionRequest,
    enabled: bool,
)
    requires
        step_follows(step, audit_id, req, enabled),
    ensures
        step is Run <==> enabled && (req.confirmed || !needs_confirmation(req.action_id@)),
{
}

/// Classifies an action by risk and tells whether it needs confirmation.
pub fn risk_of(action_id: &str) -> (r: (&'static str, bool))
    ensures
        r.0@ == risk_level(action_id@),
        r.1 == needs_confirmation(action_id@),
{
    proof {
        lemma_action_ids_distinct();
    }
    if same_text(action_id, "run_script") {
        ("high", true)
    } else if same_text(action_id, "open_app") || same_text(action_id, "open_url") || same_text(
        action_id,
        "switch_app",
    ) {
        ("medium", false)
    } else {
        ("high", true)
    }
}

/// A command line that carries out an action.
#[derive(Clone, Debug)]
pub struct ActionCommand {
    /// The action it carries out; failures are reported under this name.
    pub action_id: String,
    pub program: String,
    pub args: Vec<String>,
    /// The reply on success; `None` means the command's trimmed output.
    pub reply: Option<String>,
}

/// A command line as texts.
pub struct CommandView {
    pub action_id: Seq<char>,
    pub program: Seq<char>,
    pub args: Seq<Seq<char>>,
    pub reply: Option<Seq<char>>,
}

impl View for ActionCommand {
    type V = CommandView;

    open spec fn view(&self) -> CommandView {
        CommandView {
            action_id: self.action_id@,
            program: self.program@,
            args: texts_of(self.args@),
            reply: opt_text(self.reply),
        }
    }
}

/// A parameter's text, or the default when it is absent.
pub open spec fn param_text(p: Option<String>, default: Seq<char>) -> Seq<char> {
    match p {
        Some(v) => v@,
        None => default,
    }
}

/// Why an app name is refused, if it is: it must not be empty, longer than
/// 255 bytes, or hold `/` or `..`.
pub open spec fn app_name_error(app: Seq<char>) -> Option<Seq<char>> {
    if app.len() == 0 {
        Some("app name cannot be empty"@)
    } else if encode_utf8(app).len() > 255 {
        Some("app name too long"@)
    } else if contains_text(app, "/"@) || contains_text(app, ".."@) {
        Some("invalid app name: contains path separators"@)
    } else {
        None
    }
}

/// Why a URL is refused, if it is: it must not be empty or longer than
/// 2048 bytes, and must start with `http://`, `https://` or `file://`.
pub open spec fn url_error(url: Seq<char>) -> Option<Seq<char>> {
    if url.len() == 0 {
        Some("url cannot be empty"@)
    } else if encode_utf8(url).len() > 2048 {
        Some("url too long"@)
    } else if !(starts_with_text(url, "http://"@) || starts_with_text(url, "https://"@)
        || starts_with_text(url, "file://"@)) {
        Some("url must start with http://, https://, or file://"@)
    } else {
        None
    }
}

/// Why a script is refused, if it is: it must not be empty or longer than
/// 10000 bytes.
pub open spec fn script_error(script: Seq<char>) -> Option<Seq<char>> {
    if script.len() == 0 {
        Some("script cannot be empty"@)
    } else if encode_utf8(script).len() > 10000 {
        Some("script too long"@)
    } else {
        None
    }
}

/// The command line an action runs, or why it cannot run: apps open with
/// `open -a` (Safari by default), URLs with `open` (Apple's home page by
/// default), app switching goes through AppleScript, scripts run in
/// `zsh -lc`; app names, URLs and scripts must pass their checks, and any
/// other action is unsupported.
pub open spec fn planned_command(action_id: Seq<char>, params: ActionParams) -> Result<
    CommandView,
    Seq<char>,
> {
    if action_id == "open_app"@ {
        let app = param_text(params.app, "Safari"@);
        match app_name_error(app) {
            Some(e) => Err(e),
            None => Ok(
                CommandView {
                    action_id,
                    program: "open"@,
                    args: seq!["-a"@, app],
                    reply: Some("opened app: "@ + app),
                },
            ),
        }
    } else if action_id == "open_url"@ {
        let url = param_text(params.url, "https://www.apple.com"@);
        match url_error(url) {
            Some(e) => Err(e),
            None => Ok(
                CommandView {
                    action_id,
                    program: "open"@,
                    args: seq![url],
                    reply: Some("opened url: "@ + url),
                },
            ),
        }
    } else if action_id == "switch_app"@ {
        let app = param_text(params.app, "Safari"@);
        match app_name_error(app) {
            Some(e) => Err(e),
            None => Ok(
                CommandView {
                    action_id,
                    program: "osascript"@,
                    args: seq!["-e"@, "tell application \""@ + app + "\" to activate"@],
                    reply: Some("switched to app: "@ + app),
                },
            ),
        }
    } else if action_id == "run_script"@ {
        let script = param_text(params.script, ""@);
        match script_error(script) {
            Some(e) => Err(e),
            None => Ok(
                CommandView {
                    action_id,
                    program: "/bin/zsh"@,
                    args: seq!["-lc"@, script],
                    reply: None,
                },
            ),
        }
    } else {
        Err("unsupported action: "@ + action_id)
    }
}

/// A check's verdict as texts.
pub open spec fn check_view(r: Result<(), String>) -> Option<Seq<char>> {
    match r {
        Ok(()) => None,
        Err(e) => Some(e@),
    }
}

/// Checks an app name.
pub fn validate_app_name(app: &str) -> (r: Result<(), String>)
    ensures
        check_view(r) == app_name_error(app@),
{
    if app.is_empty() {
        return Err(String::from_str("app name cannot be empty"));
    }
    if app.as_bytes().len() > 255 {
        return Err(String::from_str("app name too long"));
    }
    if contains(app, "/") || contains(app, "..") {
        return Err(String::from_str("invalid app name: contains path separators"));
    }
    Ok(())
}

/// Checks a URL.
pub fn validate_url(url: &str) -> (r: Result<(), String>)
    ensures
        check_view(r) == url_error(url@),
{
    if url.is_empty() {
        return Err(String::from_str("url cannot be empty"));
    }
    if url.as_bytes().len() > 2048 {
        return Err(String::from_str("url too long"));
    }
    if !(starts_with(url, "http://") || starts_with(url, "https://") || starts_with(url, "file://")) {
        return Err(String::from_str("url must start with http://, https://, or file://"));
    }
    Ok(())
}

/// Checks a script.
pub fn validate_script(script: &str) -> (r: Result<(), String>)
    ensures
        check_view(r) == script_error(script@),
{
    if script.is_empty() {
        return Err(String::from_str("script cannot be empty"));
    }
    if script.as_bytes().len() > 10000 {
        return Err(String::from_str("script too long"));
    }
    Ok(())
}

/// Whether a planned command (or refusal) is the one the rules give.
pub open spec fn plan_matches(r: Result<ActionCommand, String>, planned: Result<CommandView, Seq<char>>) -> bool {
    match r {
        Ok(c) => planned matches Ok(p) && p == c@,
        Err(e) => planned matches Err(m) && m == e@,
    }
}

fn param_or(p: &Option<String>, default: &str) -> (r: String)
    ensures
        r@ == param_text(*p, default@),
{
    match p {
        Some(v) => v.clone(),
        None => String::from_str(default),
    }
}

fn texts1(a: String) -> (v: Vec<String>)
    ensures
        texts_of(v@) == seq![a@],
{
    let mut v = Vec::new();
    v.push(a);
    assert(texts_of(v@) =~= seq![a@]);
    v
}

fn texts2(a: String, b: String) -> (v: Vec<String>)
    ensures
        texts_of(v@) == seq![a@, b@],
{
    let mut v = Vec::new();
    v.push(a);
    v.push(b);
    assert(texts_of(v@) =~= seq![a@, b@]);
    v
}

/// Builds the command line of an action from its parameters, or says why
/// there is none.
pub fn plan_action(action_id: &str, params: &ActionParams) -> (r: Result<ActionCommand, String>)
    ensures
        plan_matches(r, planned_command(action_id@, *params)),
{
    proof {
        lemma_action_ids_distinct();
    }
    let id = String::from_str(action_id);
    if same_text(action_id, "open_app") {
        let app = param_or(&params.app, "Safari");
        if let Err(e) = validate_app_name(app.as_str()) {
            return Err(e);
        }
        let reply = concat("opened app: ", app.as_str());
        let args = texts2(String::from_str("-a"), app);
        Ok(ActionCommand { action_id: id, program: String::from_str("open"), args, reply: Some(reply) })
    } else if same_text(action_id, "open_url") {
        let url = param_or(&params.url, "https://www.apple.com");
        if let Err(e) = validate_url(url.as_str()) {
            return Err(e);
        }
        let reply = concat("opened url: ", url.as_str());
        let args = texts1(url);
        Ok(ActionCommand { action_id: id, program: String::from_str("open"), args, reply: Some(reply) })
    } else if same_text(action_id, "switch_app") {
        let app = param_or(&params.app, "Safari");
        if let Err(e) = validate_app_name(app.as_str()) {
            return Err(e);
        }
        let reply = concat("switched to app: ", app.as_str());
        let head = concat("tell application \"", app.as_str());
        let script = concat(head.as_str(), "\" to activate");
        let args = texts2(String::from_str("-e"), script);
        Ok(
            ActionCommand {
                action_id: id,
                program: String::from_str("osascript"),
                args,
                reply: Some(reply),
            },
        )
    } else if same_text(action_id, "run_script") {
        let script = param_or(&params.script, "");
        if let Err(e) = validate_script(script.as_str()) {
            return Err(e);
        }
        let args = texts2(String::from_str("-lc"), script);
        Ok(ActionCommand { action_id: id, program: String::from_str("/bin/zsh"), args, reply: None })
    } else {
        Err(concat("unsupported action: ", action_id))
    }
}

/// What a finished process left behind: whether it exited successfully,
/// its exit status as text (e.g. `exit status: 1`), and its output streams.
#[derive(Clone, Debug, PartialEq, Eq)]
pub struct ProcessOutput {
    pub success: bool,
    pub status_text: String,
    pub stdout: Vec<u8>,
    pub stderr: Vec<u8>,
}

/// The report of a finished process: its trimmed output on success;
/// otherwise an error naming the action with the trimmed error output, or
/// with the exit status when there was no error output.
pub open spec fn process_report(out: ProcessOutput, action_id: Seq<char>) -> Result<
    Seq<char>,
    Seq<char>,
> {
    if out.success {
        Ok(trimmed(utf8_lossy(out.stdout@)))
    } else {
        let err = trimmed(utf8_lossy(out.stderr@));
        if err.len() == 0 {
            Err(action_id + " failed with status "@ + out.status_text@)
        } else {
            Err(action_id + " failed: "@ + err)
        }
    }
}

/// Turns a finished process into the action's text or its error.
pub fn ensure_success(output: &ProcessOutput, action_id: &str) -> (r: Result<String, String>)
    ensures
        text_result(r) == process_report(*output, action_id@),
{
    if output.success {
        let out = decode_lossy(output.stdout.as_slice());
        return Ok(trim(out.as_str()));
    }
    let raw = decode_lossy(output.stderr.as_slice());
    let err = trim(raw.as_str());
    if err.as_str().is_empty() {
        let head = concat(action_id, " failed with status ");
        Err(concat(head.as_str(), output.status_text.as_str()))
    } else {
        let head = concat(action_id, " failed: ");
        Err(concat(head.as_str(), err.as_str()))
    }
}

/// The outcome of running a command: its fixed reply (or the process's
/// output when it has none) on success, the process error otherwise.
pub open spec fn command_outcome(c: CommandView, out: ProcessOutput) -> Result<Seq<char>, Seq<char>> {
    match process_report(out, c.action_id) {
        Ok(text) => Ok(
            match c.reply {
                Some(reply) => reply,
                None => text,
            },
        ),
        Err(e) => Err(e),
    }
}

/// Reads the outcome of a command from the process it ran.
pub fn command_result(command: &ActionCommand, output: &ProcessOutput) -> (r: Result<String, String>)
    ensures
        text_result(r) == command_outcome(command@, *output),
{
    match ensure_success(output, command.action_id.as_str()) {
        Ok(text) => match &command.reply {
            Some(reply) => Ok(reply.clone()),
            None => Ok(text),
        },
        Err(e) => Err(e),
    }
}

/// A row of the action audit log.
#[derive(Clone, Debug, PartialEq, Eq)]
pub struct AuditRecord {
    pub id: String,
    pub action_id: String,
    pub status: String,
    pub result: String,
    pub params_json: String,
}

/// An allowed action waiting for its command to run.
#[derive(Debug)]
pub struct PendingAction {
    pub audit_id: String,
    pub action_id: String,
    pub params_json: String,
    pub risk_level: String,
    pub requires_confirm: bool,
    /// The command to run, or the error that stands in for its outcome.
    pub command: Result<ActionCommand, String>,
}

/// The first step of a system action request.
#[derive(Debug)]
pub enum ExecutionStep {
    /// Refused: the audit row to write and the answer to give.
    Blocked { audit: AuditRecord, result: SystemActionResult },
    /// Allowed: run the command (if any), then `finish`.
    Run(PendingAction),
}

/// Why a request is refused, if it is: the audit result and the answer.
/// Disabled system control refuses everything; an action that needs
/// confirmation is refused without it.
pub open spec fn refusal(enabled: bool, action_id: Seq<char>, confirmed: bool) -> Option<
    (Seq<char>, Seq<char>),
> {
    if !enabled {
        Some(("system_control_disabled"@, "rejected: system control is disabled"@))
    } else if needs_confirmation(action_id) && !confirmed {
        Some(("confirmation_required"@, "rejected: confirmation required"@))
    } else {
        None
    }
}

/// The risk level and confirmation flag reported for a request: a request
/// refused because system control is off reports high risk with
/// confirmation; any other reports the action's own classification.
pub open spec fn reported_risk(enabled: bool, action_id: Seq<char>) -> (Seq<char>, bool) {
    if !enabled {
        ("high"@, true)
    } else {
        (risk_level(action_id), needs_confirmation(action_id))
    }
}

/// `step` is what the rules give for `req` under audit id `audit_id`.
pub open spec fn step_follows(
    step: ExecutionStep,
    audit_id: Seq<char>,
    req: SystemActionRequest,
    enabled: bool,
) -> bool {
    let id = req.action_id@;
    let (risk, confirm) = reported_risk(enabled, id);
    match refusal(enabled, id, req.confirmed) {
        Some((reason, message)) => match step {
            ExecutionStep::Blocked { audit, result } => {
                &&& audit.id@ == audit_id
                &&& audit.action_id@ == id
                &&& audit.status@ == "blocked"@
                &&& audit.result@ == reason
                &&& audit.params_json@ == req.params.json@
                &&& result.risk_level@ == risk
                &&& result.requires_confirm == confirm
                &&& result.audit_id@ == audit_id
                &&& result.result@ == message
            },
            ExecutionStep::Run(_) => false,
        },
        None => match step {
            ExecutionStep::Run(p) => {
                &&& p.audit_id@ == audit_id
                &&& p.action_id@ == id
                &&& p.params_json@ == req.params.json@
                &&& p.risk_level@ == risk
                &&& p.requires_confirm == confirm
                &&& plan_matches(p.command, planned_command(id, req.params))
            },
            ExecutionStep::Blocked { .. } => false,
        },
    }
}

/// Decides a system action request under a given audit id.
pub fn execution_step(audit_id: String, req: &SystemActionRequest, system_control_enabled: bool) -> (step: ExecutionStep)
    ensures
        step_follows(step, audit_id@, *req, system_control_enabled),
{
    if !system_control_enabled {
        let audit = AuditRecord {
            id: audit_id.clone(),
            action_id: req.action_id.clone(),
            status: String::from_str("blocked"),
            result: String::from_str("system_control_disabled"),
            params_json: req.params.json.clone(),
        };
        let result = SystemActionResult {
            risk_level: String::from_str("high"),
            requires_confirm: true,
            audit_id,
            result: String::from_str("rejected: system control is disabled"),
        };
        return ExecutionStep::Blocked { audit, result };
    }
    let (risk, requires_confirm) = risk_of(req.action_id.as_str());
    if requires_confirm && !req.confirmed {
        let audit = AuditRecord {
            id: audit_id.clone(),
            action_id: req.action_id.clone(),
            status: String::from_str("blocked"),
            result: String::from_str("confirmation_required"),
            params_json: req.params.json.clone(),
        };
        let result = SystemActionResult {
            risk_level: String::from_str(risk),
            requires_confirm,
            audit_id,
            result: String::from_str("rejected: confirmation required"),
        };
        return ExecutionStep::Blocked { audit, result };
    }
    let command = plan_action(req.action_id.as_str(), &req.params);
    ExecutionStep::Run(
        PendingAction {
            audit_id,
            action_id: req.action_id.clone(),
            params_json: req.params.json.clone(),
            risk_level: String::from_str(risk),
            requires_confirm,
            command,
        },
    )
}

/// Decides a system action request under a fresh random audit id.
pub fn execute(req: &SystemActionRequest, system_control_enabled: bool) -> (step: ExecutionStep)
    ensures
        exists|audit_id: Seq<char>|
            is_random_uuid_text(audit_id) && step_follows(
                step,
                audit_id,
                *req,
                system_control_enabled,
            ),
{
    let audit_id = new_id();
    let ghost id = audit_id@;
    let step = execution_step(audit_id, req, system_control_enabled);
    assert(is_random_uuid_text(id) && step_follows(step, id, *req, system_control_enabled));
    step
}

/// Completes an allowed action with its outcome: the audit row records
/// `ok` with the output or `error` with the message, and the answer
/// carries the same text.
pub fn finish(pending: PendingAction, outcome: Result<String, String>) -> (r: (AuditRecord, SystemActionResult))
    ensures
        r.0.id@ == pending.audit_id@,
        r.0.action_id@ == pending.action_id@,
        r.0.params_json@ == pending.params_json@,
        r.0.status@ == (if outcome is Ok {
            "ok"@
        } else {
            "error"@
        }),
        r.0.result@ == (match outcome {
            Ok(t) => t@,
            Err(e) => e@,
        }),
        r.1.risk_level@ == pending.risk_level@,
        r.1.requires_confirm == pending.requires_confirm,
        r.1.audit_id@ == pending.audit_id@,
        r.1.result@ == r.0.result@,
{
    let (status, output) = match outcome {
        Ok(text) => (String::from_str("ok"), text),
        Err(e) => (String::from_str("error"), e),
    };
    let audit = AuditRecord {
        id: pending.audit_id.clone(),
        action_id: pending.action_id,
        status,
        result: output.clone(),
        params_json: pending.params_json,
    };
    let result = SystemActionResult {
        risk_level: pending.risk_level,
        requires_confirm: pending.requires_confirm,
        audit_id: pending.audit_id,
        result: output,
    };
    (audit, result)
}

/// Law: a process report is a success exactly when the process succeeded,
/// and a failure is reported under the action's name: `<action> failed`
/// begins every error.
pub proof fn law_process_report_follows_success(out: ProcessOutput, action_id: Seq<char>)
    ensures
        process_report(out, action_id) is Ok <==> out.success,
        process_report(out, action_id) matches Err(e) ==> starts_with_text(e, action_id + " failed"@),
{
    if !out.success {
        reveal_strlit(" failed");
        reveal_strlit(" failed with status ");
        reveal_strlit(" failed: ");
        let err = trimmed(utf8_lossy(out.stderr@));
        let head = action_id + " failed"@;
        if err.len() == 0 {
            let e = action_id + " failed with status "@ + out.status_text@;
            assert(e.subrange(0, head.len() as int) =~= head);
        } else {
            let e = action_id + " failed: "@ + err;
            assert(e.subrange(0, head.len() as int) =~= head);
        }
    }
}

/// Law: a failed process is never reported as success. Whenever the process
/// failed, the command's outcome is the process error, whether or not the
/// command has a fixed reply; the fixed reply is given only when the
/// process succeeded, and a command without one reports the process's
/// output.
pub proof fn law_failed_command_is_an_error(c: CommandView, out: ProcessOutput)
    ensures
        !out.success ==> command_outcome(c, out) is Err,
        command_outcome(c, out) is Ok ==> out.success,
        process_report(out, c.action_id) matches Err(e) ==> command_outcome(c, out) == Err::<
            Seq<char>,
            Seq<char>,
        >(e),
        out.success ==> (c.reply matches Some(reply) ==> command_outcome(c, out) == Ok::<
            Seq<char>,
            Seq<char>,
        >(reply)),
        out.success && c.reply is None ==> command_outcome(c, out) == process_report(
            out,
            c.action_id,
        ),
{
    law_process_report_follows_success(out, c.action_id);
}

} // verus!
