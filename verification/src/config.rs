//! The configuration resolver: turns raw command-line inputs, the token found
//! in the environment, and the text read from standard input into a single
//! validated, immutable [`SendRequest`], or fails before any network activity.
//!
//! All functions here are pure: the caller performs the environment lookup and
//! the blocking read of standard input, and hands the results in as plain
//! values.

use crate::errors::SendError;
use vstd::prelude::*;

verus! {

/// The channel or user a message is addressed to. The carried name excludes
/// the platform sigil (`#` or `@`), which is re-added on serialization.
#[derive(Clone, Debug, PartialEq, Eq)]
pub enum Target {
    Channel { name: String },
    User { name: String },
}

impl Target {
    /// The target as it appears in the outbound request: the platform sigil
    /// followed by the bare name.
    pub open spec fn serialized_spec(self) -> Seq<char> {
        match self {
            Target::Channel { name } => seq!['#'] + name@,
            Target::User { name } => seq!['@'] + name@,
        }
    }

    /// Serializes the target, prefixing `#` for a channel and `@` for a user.
    pub fn serialized(&self) -> (r: String)
        ensures
            r@ == self.serialized_spec(),
    {
        match self {
            Target::Channel { name } => {
                let mut s = "#".to_owned();
                proof {
                    reveal_strlit("#");
                    assert("#"@ =~= seq!['#']);
                }
                s.append(name.as_str());
                proof {
                    assert(s@ =~= self.serialized_spec());
                }
                s
            },
            Target::User { name } => {
                let mut s = "@".to_owned();
                proof {
                    reveal_strlit("@");
                    assert("@"@ =~= seq!['@']);
                }
                s.append(name.as_str());
                proof {
                    assert(s@ =~= self.serialized_spec());
                }
                s
            },
        }
    }
}

/// Exactly one of the two optional target flags is present: the
/// mutual-exclusivity constraint on `--channel` and `--user`.
pub open spec fn exactly_one_target(channel: Option<String>, user: Option<String>) -> bool {
    channel is Some <==> user is None
}

/// What target resolution yields: the tagged variant for whichever flag is
/// present, and nothing when the mutual-exclusivity constraint is broken.
pub open spec fn resolved_target(channel: Option<String>, user: Option<String>) -> Option<
    Target,
> {
    if channel is Some && user is None {
        Some(Target::Channel { name: channel->0 })
    } else if user is Some && channel is None {
        Some(Target::User { name: user->0 })
    } else {
        None
    }
}

/// Validates the mutual-exclusivity constraint and maps whichever of the two
/// flags is present to the corresponding tagged variant. Returns `None` when
/// both or neither flag was supplied, so that resolution fails before any
/// network call is attempted.
pub fn resolve_target(channel: Option<String>, user: Option<String>) -> (r: Option<Target>)
    ensures
        r == resolved_target(channel, user),
        r is Some <==> exactly_one_target(channel, user),
{
    match (channel, user) {
        (Some(name), None) => Some(Target::Channel { name }),
        (None, Some(name)) => Some(Target::User { name }),
        _ => None,
    }
}

/// Both or neither target flag supplied: target resolution fails, so no
/// request is ever built and nothing is dispatched.
pub proof fn lemma_invalid_target_never_resolves(channel: Option<String>, user: Option<String>)
    requires
        !exactly_one_target(channel, user),
    ensures
        resolved_target(channel, user) is None,
{
}

/// What token resolution yields under the source precedence: the
/// command-line value first, else the environment value, else nothing.
pub open spec fn resolved_token(cli: Option<String>, env: Option<String>) -> Option<String> {
    if cli is Some {
        cli
    } else {
        env
    }
}

/// Resolves the authentication token: an explicit command-line value wins;
/// otherwise the value of the `SLACK_API_TOKEN` environment variable (handed
/// in by the caller) is used; if neither source yields a value, resolution
/// fails with [`SendError::MissingToken`].
pub fn resolve_token(cli: Option<String>, env: Option<String>) -> (r: Result<String, SendError>)
    ensures
        resolved_token(cli, env) matches Some(t) ==> r == Ok::<String, SendError>(t),
        resolved_token(cli, env) is None ==> r == Err::<String, SendError>(
            SendError::MissingToken,
        ),
{
    match cli {
        Some(t) => Ok(t),
        None => match env {
            Some(t) => Ok(t),
            None => Err(SendError::MissingToken),
        },
    }
}

/// The resolved message body: the optional command-line string (empty when
/// absent) with the full standard-input text appended verbatim, no separator
/// inserted.
pub open spec fn message_body(cli: Option<String>, stdin: Seq<char>) -> Seq<char> {
    (match cli {
        Some(m) => m@,
        None => Seq::<char>::empty(),
    }) + stdin
}

/// Concatenates the optional `--message` value and the standard-input text,
/// in that order. An empty flag value together with empty input yields an
/// empty body: nothing rejects empty content.
pub fn resolve_message(cli: Option<String>, stdin: String) -> (r: String)
    ensures
        r@ == message_body(cli, stdin@),
{
    let mut body = match cli {
        Some(m) => m,
        None => String::new(),
    };
    body.append(stdin.as_str());
    body
}

/// What the normalization hook yields. It is the identity today: the
/// intended link and newline rewriting is unspecified and must not be
/// guessed.
pub open spec fn formatted(s: Seq<char>) -> Seq<char> {
    s
}

/// Normalization hook for platform markup. Deliberately a no-op: kept as an
/// explicit, separately testable step, as the natural extension point for
/// rewriting links and newline sequences once their rules are specified.
pub fn format_slack_message(s: &str) -> (r: String)
    ensures
        r@ == formatted(s@),
{
    s.to_owned()
}

/// Formatting is the identity transform, and therefore idempotent: applying
/// it twice yields the same text as applying it once, which is the input
/// itself.
pub proof fn lemma_format_idempotent(s: Seq<char>)
    ensures
        formatted(formatted(s)) == formatted(s),
        formatted(s) == s,
{
}

/// The validated, immutable aggregate a single run resolves to. Created once
/// by the configuration resolver, consumed exactly once by the dispatcher,
/// never mutated.
#[derive(Clone, Debug, PartialEq, Eq)]
pub struct SendRequest {
    /// Where the message goes.
    pub target: Target,
    /// The authentication token, an opaque string credential.
    pub token: String,
    /// The message body, already normalized.
    pub message: String,
    /// Optional display-name override; absent means the platform's default
    /// bot identity.
    pub sender_name: Option<String>,
}

/// The raw command-line inputs, as the validated options bag the
/// flag-parsing layer produces. Every value excludes its sigil or prefix as
/// the user supplied it.
#[derive(Clone, Debug, PartialEq, Eq)]
pub struct CliOptions {
    /// `-t/--token`.
    pub token: Option<String>,
    /// `-c/--channel`.
    pub channel: Option<String>,
    /// `-u/--user`.
    pub user: Option<String>,
    /// `-m/--message`.
    pub message: Option<String>,
    /// `-n/--name`.
    pub sender_name: Option<String>,
}

/// Resolves a full [`SendRequest`] from the options bag, the environment's
/// token (if any) and the drained standard-input text: token under the
/// command-line-first precedence, target as its tagged variant, message body
/// as the verbatim concatenation run through the normalization hook, and the
/// optional sender name passed through. Fails with
/// [`SendError::MissingToken`] exactly when neither token source yields a
/// value.
pub fn resolve_request(opts: CliOptions, env_token: Option<String>, stdin: String) -> (r: Result<
    SendRequest,
    SendError,
>)
    requires
        exactly_one_target(opts.channel, opts.user),
    ensures
        r is Ok <==> (opts.token is Some || env_token is Some),
        r is Err ==> r == Err::<SendRequest, SendError>(SendError::MissingToken),
        r matches Ok(req) ==> {
            &&& Some(req.target) == resolved_target(opts.channel, opts.user)
            &&& Some(req.token) == resolved_token(opts.token, env_token)
            &&& req.message@ == formatted(message_body(opts.message, stdin@))
            &&& req.sender_name == opts.sender_name
        },
{
    let token = match resolve_token(opts.token, env_token) {
        Ok(t) => t,
        Err(e) => {
            return Err(e);
        },
    };
    let target = match resolve_target(opts.channel, opts.user) {
        Some(t) => t,
        // dead branch: exactly one target flag is present, so resolution succeeds
        None => unreached(),
    };
    let raw = resolve_message(opts.message, stdin);
    let message = format_slack_message(raw.as_str());
    Ok(SendRequest { target, token, message, sender_name: opts.sender_name })
}

} // verus!
