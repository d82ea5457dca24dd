//! The commands that the server runs for an authenticated client.

use crate::clock::{elapsed_since, instant_now, wall_clock};
use crate::json::{integer_model, lookup, members_model, put, JsonModel, JsonValue};
use crate::text::{concat2, str_equal};
use vstd::prelude::*;
use vstd::string::*;

verus! {

/// What the commands know of the server.
pub struct CommandContext {
    pub server_start_time: std::time::Instant,
    pub version: String,
}

/// The result of a command: a JSON value, or the text of a failure.
pub type CommandResult = Result<JsonModel, Seq<char>>;

/// The content of the result of a command.
pub open spec fn result_view(r: Result<JsonValue, String>) -> CommandResult {
    match r {
        Ok(v) => Ok(v.model()),
        Err(t) => Err(t@),
    }
}

/// The object with one member.
pub open spec fn object1(k: Seq<char>, v: JsonModel) -> JsonModel {
    JsonModel::Object(Seq::<(Seq<char>, JsonModel)>::empty().push((k, v)))
}

/// What `PING` answers.
pub open spec fn ping_result() -> CommandResult {
    Ok(object1("message"@, JsonModel::Str("PONG"@)))
}

/// What `ECHO` answers: the string given as `text`, or a failure where the
/// arguments hold no such string.
pub open spec fn echo_result(args: JsonModel) -> CommandResult {
    match args {
        JsonModel::Object(ms) => match lookup(ms, "text"@) {
            Some(JsonModel::Str(t)) => Ok(object1("echo"@, JsonModel::Str(t))),
            _ => Err("ECHO requires 'text' argument"@),
        },
        _ => Err("ECHO requires 'text' argument"@),
    }
}

/// What `TIME` answers for a reading of the wall clock.
pub open spec fn time_result(unix_time: i64, iso8601: Seq<char>) -> CommandResult {
    Ok(
        JsonModel::Object(
            Seq::<(Seq<char>, JsonModel)>::empty().push(
                ("timestamp"@, JsonModel::Number(integer_model(unix_time as int))),
            ).push(("iso8601"@, JsonModel::Str(iso8601))),
        ),
    )
}

/// What `STATUS` answers for a server of the given version that has run for
/// `uptime_secs` seconds.
pub open spec fn status_result(version: Seq<char>, uptime_secs: u64) -> CommandResult {
    Ok(
        JsonModel::Object(
            Seq::<(Seq<char>, JsonModel)>::empty().push(("version"@, JsonModel::Str(version))).push(
                ("uptime_secs"@, JsonModel::Number(integer_model(uptime_secs as int))),
            ).push(("status"@, JsonModel::Str("running"@))),
        ),
    )
}

/// What a command answers. Names are matched exactly; any other name fails
/// with the name in the text.
pub open spec fn command_result(
    cmd: Seq<char>,
    args: JsonModel,
    version: Seq<char>,
    unix_time: i64,
    iso8601: Seq<char>,
    uptime_secs: u64,
) -> CommandResult {
    if cmd == "PING"@ {
        ping_result()
    } else if cmd == "ECHO"@ {
        echo_result(args)
    } else if cmd == "TIME"@ {
        time_result(unix_time, iso8601)
    } else if cmd == "STATUS"@ {
        status_result(version, uptime_secs)
    } else {
        Err("Unknown command: "@ + cmd)
    }
}

/// `PING`: answers `PONG`.
pub fn cmd_ping() -> (r: Result<JsonValue, String>)
    ensures
        result_view(r) == ping_result(),
{
    let mut members: Vec<(String, JsonValue)> = Vec::new();
    assert(members_model(members@) =~= Seq::empty());
    put(&mut members, "message", JsonValue::from_text("PONG"));
    Ok(JsonValue::object(members))
}

/// `ECHO`: answers the text it was given.
pub fn cmd_echo(args: &JsonValue) -> (r: Result<JsonValue, String>)
    ensures
        result_view(r) == echo_result(args.model()),
{
    let text = match args.member("text") {
        Some(v) => v.as_text(),
        None => None,
    };
    match text {
        Some(t) => {
            let mut members: Vec<(String, JsonValue)> = Vec::new();
            assert(members_model(members@) =~= Seq::empty());
            put(&mut members, "echo", JsonValue::Str(t));
            Ok(JsonValue::object(members))
        },
        None => Err(String::from_str("ECHO requires 'text' argument")),
    }
}

/// `TIME` for a given reading of the wall clock.
pub fn cmd_time_at(unix_time: i64, iso8601: &str) -> (r: Result<JsonValue, String>)
    ensures
        result_view(r) == time_result(unix_time, iso8601@),
{
    let mut members: Vec<(String, JsonValue)> = Vec::new();
    assert(members_model(members@) =~= Seq::empty());
    put(&mut members, "timestamp", JsonValue::from_i64(unix_time));
    put(&mut members, "iso8601", JsonValue::from_text(iso8601));
    Ok(JsonValue::object(members))
}

/// `TIME`: answers the server's wall clock as it reads now.
pub fn cmd_time() -> (r: Result<JsonValue, String>)
    ensures
        exists|unix_time: i64, iso8601: Seq<char>|
            result_view(r) == #[trigger] time_result(unix_time, iso8601),
{
    let (unix_time, iso8601) = wall_clock();
    let r = cmd_time_at(unix_time, iso8601.as_str());
    assert(result_view(r) == time_result(unix_time, iso8601@));
    r
}

/// `STATUS` for a server that has run for `uptime_secs` seconds.
pub fn cmd_status_at(ctx: &CommandContext, uptime_secs: u64) -> (r: Result<JsonValue, String>)
    ensures
        result_view(r) == status_result(ctx.version@, uptime_secs),
{
    let mut members: Vec<(String, JsonValue)> = Vec::new();
    assert(members_model(members@) =~= Seq::empty());
    put(&mut members, "version", JsonValue::Str(ctx.version.clone()));
    put(&mut members, "uptime_secs", JsonValue::from_u64(uptime_secs));
    put(&mut members, "status", JsonValue::from_text("running"));
    Ok(JsonValue::object(members))
}

/// `STATUS`: answers version and uptime of the server.
pub fn cmd_status(ctx: &CommandContext) -> (r: Result<JsonValue, String>)
    ensures
        exists|uptime_secs: u64| result_view(r) == #[trigger] status_result(ctx.version@, uptime_secs),
{
    let uptime_secs = elapsed_since(&ctx.server_start_time).0;
    let r = cmd_status_at(ctx, uptime_secs);
    assert(result_view(r) == status_result(ctx.version@, uptime_secs));
    r
}

/// Runs a command for given readings of the clocks.
pub fn execute_command_at(
    cmd: &str,
    args: &JsonValue,
    ctx: &CommandContext,
    unix_time: i64,
    iso8601: &str,
    uptime_secs: u64,
) -> (r: Result<JsonValue, String>)
    ensures
        result_view(r) == command_result(
            cmd@,
            args.model(),
            ctx.version@,
            unix_time,
            iso8601@,
            uptime_secs,
        ),
{
    if str_equal(cmd, "PING") {
        cmd_ping()
    } else if str_equal(cmd, "ECHO") {
        cmd_echo(args)
    } else if str_equal(cmd, "TIME") {
        cmd_time_at(unix_time, iso8601)
    } else if str_equal(cmd, "STATUS") {
        cmd_status_at(ctx, uptime_secs)
    } else {
        Err(concat2("Unknown command: ", cmd))
    }
}

/// Runs a command with the clocks as they read now.
pub fn execute_command(cmd: &str, args: &JsonValue, ctx: &CommandContext) -> (r: Result<
    JsonValue,
    String,
>)
    ensures
        exists|unix_time: i64, iso8601: Seq<char>, uptime_secs: u64|
            result_view(r) == #[trigger] command_result(
                cmd@,
                args.model(),
                ctx.version@,
                unix_time,
                iso8601,
                uptime_secs,
            ),
{
    let (unix_time, iso8601) = wall_clock();
    let uptime_secs = elapsed_since(&ctx.server_start_time).0;
    let r = execute_command_at(cmd, args, ctx, unix_time, iso8601.as_str(), uptime_secs);
    assert(result_view(r) == command_result(
        cmd@,
        args.model(),
        ctx.version@,
        unix_time,
        iso8601@,
        uptime_secs,
    ));
    r
}

impl CommandContext {
    /// The context of a server of the given version that starts now.
    pub fn starting_now(version: String) -> (r: CommandContext)
        ensures
            r.version@ == version@,
    {
        CommandContext { server_start_time: instant_now(), version }
    }
}

} // verus!
