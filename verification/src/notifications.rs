//! Telegram notifications: which ones go out, how often, and what they say.
//!
//! The library decides and prepares each message; posting the prepared
//! request is left to the caller.

use vstd::prelude::*;
use crate::config::{NotificationConfig, ResolvedConfig};
use crate::errors::NotificationError;
use crate::text::{concat2, copy_string};

verus! {

/// Least time between two notifications of one kind: 300 seconds, in
/// nanoseconds.
pub const MIN_NOTIFICATION_INTERVAL_NS: u64 = 300_000_000_000;

/// When each kind of notification was last let through, in nanoseconds of
/// a monotonic clock.
#[derive(Debug, Clone, Copy, PartialEq, Eq)]
pub struct RateLimiter {
    pub last_failure_ns: Option<u64>,
    pub last_success_ns: Option<u64>,
}

/// A notification last let through at `last` may go out again at `now`:
/// there was none, or at least the minimum interval has passed (a clock
/// reading earlier than `last` counts as no time passed).
pub open spec fn interval_passed(last: Option<u64>, now: u64) -> bool {
    match last {
        None => true,
        Some(l) => now >= l + MIN_NOTIFICATION_INTERVAL_NS,
    }
}

/// The limiter after a check of one kind at `now`: that kind's time is
/// moved to `now` when the check lets the notification through.
pub open spec fn limiter_after(r: RateLimiter, is_failure: bool, now: u64) -> RateLimiter {
    if is_failure {
        if interval_passed(r.last_failure_ns, now) {
            RateLimiter { last_failure_ns: Some(now), ..r }
        } else {
            r
        }
    } else {
        if interval_passed(r.last_success_ns, now) {
            RateLimiter { last_success_ns: Some(now), ..r }
        } else {
            r
        }
    }
}

/// Whether a check of one kind at `now` lets the notification through.
pub open spec fn let_through(r: RateLimiter, is_failure: bool, now: u64) -> bool {
    if is_failure {
        interval_passed(r.last_failure_ns, now)
    } else {
        interval_passed(r.last_success_ns, now)
    }
}

/// The text of a failure notification.
pub open spec fn failure_text(job: Seq<char>, error: Seq<char>) -> Seq<char> {
    "\u{274c} Backup Failed: "@ + job + "\n\nError: "@ + error
}

/// The text of a success notification.
pub open spec fn success_text(job: Seq<char>, snapshot: Option<Seq<char>>) -> Seq<char> {
    match snapshot {
        Some(s) => "\u{2705} Backup Success: "@ + job + "\n\nSnapshot: "@ + s,
        None => "\u{2705} Backup Success: "@ + job,
    }
}

/// The text of a notification for a backup that completed with errors.
pub open spec fn partial_text(job: Seq<char>, snapshot: Option<Seq<char>>, detail: Seq<char>) -> Seq<
    char,
> {
    match snapshot {
        Some(s) => "\u{26a0}\u{fe0f} Backup Partial: "@ + job + "\n\nSnapshot: "@ + s + "\n\nErrors: "@
            + detail,
        None => "\u{26a0}\u{fe0f} Backup Partial: "@ + job + "\n\nErrors: "@ + detail,
    }
}

/// The Bot API address that sends a message with the given token.
pub open spec fn send_message_url(token: Seq<char>) -> Seq<char> {
    "https://api.telegram.org/bot"@ + token + "/sendMessage"@
}

/// A form post to Telegram's `sendMessage`.
pub struct TelegramRequest {
    pub url: String,
    pub chat_id: String,
    pub text: String,
    pub parse_mode: String,
}

/// The optional text of an optional string.
pub open spec fn opt_seq(o: Option<&str>) -> Option<Seq<char>> {
    match o {
        Some(s) => Some(s@),
        None => None,
    }
}

/// The text of an optional owned string.
pub open spec fn opt_string(o: Option<String>) -> Option<Seq<char>> {
    match o {
        Some(s) => Some(s@),
        None => None,
    }
}

/// Sends backup results to a Telegram chat, at most one notification of
/// each kind (failure, success) per interval.
pub struct Notifications {
    bot_token: Option<String>,
    chat_id: Option<String>,
    rate_limiter: RateLimiter,
}

/// The bot token of a configuration, if its secrets give one.
pub open spec fn configured_token(config: ResolvedConfig) -> Option<Seq<char>> {
    match config.secrets.telegram {
        Some(t) => opt_string(t.bot_token),
        None => None,
    }
}

/// The chat id of a configuration, if its secrets give one.
pub open spec fn configured_chat(config: ResolvedConfig) -> Option<Seq<char>> {
    match config.secrets.telegram {
        Some(t) => opt_string(t.chat_id),
        None => None,
    }
}

fn copy_opt(o: &Option<String>) -> (r: Option<String>)
    ensures
        opt_string(r) == opt_string(*o),
{
    match o {
        Some(s) => Some(copy_string(s)),
        None => None,
    }
}

impl Notifications {
    /// The bot token.
    pub closed spec fn token(self) -> Option<Seq<char>> {
        opt_string(self.bot_token)
    }

    /// The chat id.
    pub closed spec fn chat(self) -> Option<Seq<char>> {
        opt_string(self.chat_id)
    }

    /// When each kind of notification was last let through.
    pub closed spec fn limiter(self) -> RateLimiter {
        self.rate_limiter
    }

    /// Both a bot token and a chat id are set.
    pub open spec fn configured(self) -> bool {
        self.token() is Some && self.chat() is Some
    }

    /// Takes the Telegram settings of the configuration's secrets; nothing
    /// has been sent yet.
    pub fn new(config: &ResolvedConfig) -> (r: Self)
        ensures
            r.token() == configured_token(*config),
            r.chat() == configured_chat(*config),
            r.limiter() == (RateLimiter { last_failure_ns: None, last_success_ns: None }),
    {
        let (bot_token, chat_id) = match config.secrets.telegram_config() {
            Some(t) => (copy_opt(&t.bot_token), copy_opt(&t.chat_id)),
            None => (None, None),
        };
        Notifications {
            bot_token,
            chat_id,
            rate_limiter: RateLimiter { last_failure_ns: None, last_success_ns: None },
        }
    }

    /// True when both a bot token and a chat id are set.
    pub fn is_configured(&self) -> (r: bool)
        ensures
            r == self.configured(),
    {
        self.bot_token.is_some() && self.chat_id.is_some()
    }

    /// Lets a notification of one kind through at `now_ns` unless one of
    /// that kind went out less than the minimum interval before; a
    /// notification let through restarts that kind's interval.
    pub fn check_rate_limit(&mut self, is_failure: bool, now_ns: u64) -> (r: bool)
        ensures
            r == let_through(old(self).limiter(), is_failure, now_ns),
            final(self).limiter() == limiter_after(old(self).limiter(), is_failure, now_ns),
            final(self).token() == old(self).token(),
            final(self).chat() == old(self).chat(),
    {
        let last = if is_failure {
            self.rate_limiter.last_failure_ns
        } else {
            self.rate_limiter.last_success_ns
        };
        match last {
            Some(l) => {
                let elapsed = if now_ns >= l {
                    now_ns - l
                } else {
                    0
                };
                if elapsed < MIN_NOTIFICATION_INTERVAL_NS {
                    return false;
                }
            },
            None => {},
        }
        if is_failure {
            self.rate_limiter.last_failure_ns = Some(now_ns);
        } else {
            self.rate_limiter.last_success_ns = Some(now_ns);
        }
        true
    }

    /// The form post that sends `message`, or `NotConfigured` when the bot
    /// token or the chat id is missing.
    pub fn telegram_request(&self, message: &str) -> (r: Result<TelegramRequest, NotificationError>)
        ensures
            match r {
                Ok(req) => {
                    &&& self.configured()
                    &&& req.url@ == send_message_url(self.token().unwrap())
                    &&& req.chat_id@ == self.chat().unwrap()
                    &&& req.text@ == message@
                    &&& req.parse_mode@ == "Markdown"@
                },
                Err(e) => !self.configured() && e is NotConfigured,
            },
    {
        let token = match &self.bot_token {
            Some(t) => t,
            None => {
                return Err(NotificationError::NotConfigured);
            },
        };
        let chat = match &self.chat_id {
            Some(c) => c,
            None => {
                return Err(NotificationError::NotConfigured);
            },
        };
        let mut url = concat2("https://api.telegram.org/bot", token.as_str());
        url.append("/sendMessage");
        Ok(
            TelegramRequest {
                url,
                chat_id: copy_string(chat),
                text: String::from_str(message),
                parse_mode: String::from_str("Markdown"),
            },
        )
    }

    fn prepare(&mut self, is_failure: bool, message: String, now_ns: u64) -> (r: Option<
        TelegramRequest,
    >)
        ensures
            r is Some <==> (old(self).configured() && let_through(
                old(self).limiter(),
                is_failure,
                now_ns,
            )),
            final(self).limiter() == if old(self).configured() {
                limiter_after(old(self).limiter(), is_failure, now_ns)
            } else {
                old(self).limiter()
            },
            final(self).token() == old(self).token(),
            final(self).chat() == old(self).chat(),
            r matches Some(req) ==> {
                &&& req.url@ == send_message_url(old(self).token().unwrap())
                &&& req.chat_id@ == old(self).chat().unwrap()
                &&& req.text@ == message@
                &&& req.parse_mode@ == "Markdown"@
            },
    {
        if !self.is_configured() {
            return None;
        }
        if !self.check_rate_limit(is_failure, now_ns) {
            return None;
        }
        match self.telegram_request(message.as_str()) {
            Ok(req) => Some(req),
            Err(_) => None,
        }
    }

    /// Decides whether a failure notification for `job_name` goes out at
    /// `now_ns` and prepares it: nothing when Telegram is not configured
    /// or a failure notification went out within the interval.
    pub fn send_failure(&mut self, job_name: &str, error: &str, now_ns: u64) -> (r: Option<
        TelegramRequest,
    >)
        ensures
            r is Some <==> (old(self).configured() && let_through(old(self).limiter(), true, now_ns)),
            final(self).limiter() == if old(self).configured() {
                limiter_after(old(self).limiter(), true, now_ns)
            } else {
                old(self).limiter()
            },
            final(self).token() == old(self).token(),
            final(self).chat() == old(self).chat(),
            r matches Some(req) ==> {
                &&& req.url@ == send_message_url(old(self).token().unwrap())
                &&& req.chat_id@ == old(self).chat().unwrap()
                &&& req.text@ == failure_text(job_name@, error@)
                &&& req.parse_mode@ == "Markdown"@
            },
    {
        let mut message = concat2("\u{274c} Backup Failed: ", job_name);
        message.append("\n\nError: ");
        message.append(error);
        self.prepare(true, message, now_ns)
    }

    /// Decides whether a success notification for `job_name` goes out at
    /// `now_ns` and prepares it: nothing when Telegram is not configured
    /// or a success notification went out within the interval.
    pub fn send_success(&mut self, job_name: &str, snapshot_id: Option<&str>, now_ns: u64) -> (r:
        Option<TelegramRequest>)
        ensures
            r is Some <==> (old(self).configured() && let_through(old(self).limiter(), false, now_ns)),
            final(self).limiter() == if old(self).configured() {
                limiter_after(old(self).limiter(), false, now_ns)
            } else {
                old(self).limiter()
            },
            final(self).token() == old(self).token(),
            final(self).chat() == old(self).chat(),
            r matches Some(req) ==> {
                &&& req.url@ == send_message_url(old(self).token().unwrap())
                &&& req.chat_id@ == old(self).chat().unwrap()
                &&& req.text@ == success_text(job_name@, opt_seq(snapshot_id))
                &&& req.parse_mode@ == "Markdown"@
            },
    {
        let mut message = concat2("\u{2705} Backup Success: ", job_name);
        match snapshot_id {
            Some(snap) => {
                message.append("\n\nSnapshot: ");
                message.append(snap);
            },
            None => {},
        }
        self.prepare(false, message, now_ns)
    }

    /// Decides whether a notification that `job_name` completed with
    /// errors goes out at `now_ns` and prepares it. It counts as a failure
    /// notification for the rate limit.
    pub fn send_partial(
        &mut self,
        job_name: &str,
        snapshot_id: Option<&str>,
        detail: &str,
        now_ns: u64,
    ) -> (r: Option<TelegramRequest>)
        ensures
            r is Some <==> (old(self).configured() && let_through(old(self).limiter(), true, now_ns)),
            final(self).limiter() == if old(self).configured() {
                limiter_after(old(self).limiter(), true, now_ns)
            } else {
                old(self).limiter()
            },
            final(self).token() == old(self).token(),
            final(self).chat() == old(self).chat(),
            r matches Some(req) ==> {
                &&& req.url@ == send_message_url(old(self).token().unwrap())
                &&& req.chat_id@ == old(self).chat().unwrap()
                &&& req.text@ == partial_text(job_name@, opt_seq(snapshot_id), detail@)
                &&& req.parse_mode@ == "Markdown"@
            },
    {
        let mut message = concat2("\u{26a0}\u{fe0f} Backup Partial: ", job_name);
        match snapshot_id {
            Some(snap) => {
                message.append("\n\nSnapshot: ");
                message.append(snap);
            },
            None => {},
        }
        message.append("\n\nErrors: ");
        message.append(detail);
        self.prepare(true, message, now_ns)
    }
}

/// A job's notifications: the Telegram sender and the job's settings for
/// when to notify.
pub struct NotificationManager {
    pub notifications: Notifications,
    pub job_config: NotificationConfig,
}

impl NotificationManager {
    /// A sender for the configuration's Telegram settings, with the job's
    /// notification settings.
    pub fn new(config: &ResolvedConfig, job_config: NotificationConfig) -> (r: Self)
        ensures
            r.notifications.token() == configured_token(*config),
            r.notifications.chat() == configured_chat(*config),
            r.notifications.limiter() == (RateLimiter {
                last_failure_ns: None,
                last_success_ns: None,
            }),
            r.job_config == job_config,
    {
        NotificationManager { notifications: Notifications::new(config), job_config }
    }

    /// A failure notification, when the job notifies on failure and the
    /// sender lets it through; otherwise nothing, with the sender untouched
    /// when the job does not notify on failure.
    pub fn notify_failure(&mut self, job_name: &str, error: &str, now_ns: u64) -> (r: Option<
        TelegramRequest,
    >)
        ensures
            final(self).job_config == old(self).job_config,
            !old(self).job_config.on_failure ==> r is None && final(self).notifications.limiter()
                == old(self).notifications.limiter(),
            old(self).job_config.on_failure ==> {
                &&& r is Some <==> (old(self).notifications.configured() && let_through(
                    old(self).notifications.limiter(),
                    true,
                    now_ns,
                ))
                &&& final(self).notifications.limiter() == if old(
                    self,
                ).notifications.configured() {
                    limiter_after(old(self).notifications.limiter(), true, now_ns)
                } else {
                    old(self).notifications.limiter()
                }
            },
            final(self).notifications.token() == old(self).notifications.token(),
            final(self).notifications.chat() == old(self).notifications.chat(),
            r matches Some(req) ==> {
                &&& req.url@ == send_message_url(old(self).notifications.token().unwrap())
                &&& req.chat_id@ == old(self).notifications.chat().unwrap()
                &&& req.text@ == failure_text(job_name@, error@)
                &&& req.parse_mode@ == "Markdown"@
            },
    {
        if self.job_config.on_failure {
            self.notifications.send_failure(job_name, error, now_ns)
        } else {
            None
        }
    }

    /// A success notification, when the job notifies on success and the
    /// sender lets it through; otherwise nothing, with the sender untouched
    /// when the job does not notify on success.
    pub fn notify_success(&mut self, job_name: &str, snapshot_id: Option<&str>, now_ns: u64) -> (r:
        Option<TelegramRequest>)
        ensures
            final(self).job_config == old(self).job_config,
            !old(self).job_config.on_success ==> r is None && final(self).notifications.limiter()
                == old(self).notifications.limiter(),
            old(self).job_config.on_success ==> {
                &&& r is Some <==> (old(self).notifications.configured() && let_through(
                    old(self).notifications.limiter(),
                    false,
                    now_ns,
                ))
                &&& final(self).notifications.limiter() == if old(
                    self,
                ).notifications.configured() {
                    limiter_after(old(self).notifications.limiter(), false, now_ns)
                } else {
                    old(self).notifications.limiter()
                }
            },
            final(self).notifications.token() == old(self).notifications.token(),
            final(self).notifications.chat() == old(self).notifications.chat(),
            r matches Some(req) ==> {
                &&& req.url@ == send_message_url(old(self).notifications.token().unwrap())
                &&& req.chat_id@ == old(self).notifications.chat().unwrap()
                &&& req.text@ == success_text(job_name@, opt_seq(snapshot_id))
                &&& req.parse_mode@ == "Markdown"@
            },
    {
        if self.job_config.on_success {
            self.notifications.send_success(job_name, snapshot_id, now_ns)
        } else {
            None
        }
    }

    /// A notification that the backup completed with errors, under the
    /// job's failure setting (a partial backup is reported like a failure).
    pub fn notify_partial(
        &mut self,
        job_name: &str,
        snapshot_id: Option<&str>,
        detail: &str,
        now_ns: u64,
    ) -> (r: Option<TelegramRequest>)
        ensures
            final(self).job_config == old(self).job_config,
            !old(self).job_config.on_failure ==> r is None && final(self).notifications.limiter()
                == old(self).notifications.limiter(),
            old(self).job_config.on_failure ==> {
                &&& r is Some <==> (old(self).notifications.configured() && let_through(
                    old(self).notifications.limiter(),
                    true,
                    now_ns,
                ))
                &&& final(self).notifications.limiter() == if old(
                    self,
                ).notifications.configured() {
                    limiter_after(old(self).notifications.limiter(), true, now_ns)
                } else {
                    old(self).notifications.limiter()
                }
            },
            final(self).notifications.token() == old(self).notifications.token(),
            final(self).notifications.chat() == old(self).notifications.chat(),
            r matches Some(req) ==> {
                &&& req.url@ == send_message_url(old(self).notifications.token().unwrap())
                &&& req.chat_id@ == old(self).notifications.chat().unwrap()
                &&& req.text@ == partial_text(job_name@, opt_seq(snapshot_id), detail@)
                &&& req.parse_mode@ == "Markdown"@
            },
    {
        if self.job_config.on_failure {
            self.notifications.send_partial(job_name, snapshot_id, detail, now_ns)
        } else {
            None
        }
    }
}

/// Rate limiting: once a notification of a kind is let through at `t`,
/// every later one of that kind is refused until the interval has passed,
/// and let through from then on; the other kind is not affected.
pub proof fn lemma_rate_limit_window(r: RateLimiter, is_failure: bool, t: u64, later: u64)
    requires
        let_through(r, is_failure, t),
    ensures
        let_through(limiter_after(r, is_failure, t), is_failure, later) <==> later >= t
            + MIN_NOTIFICATION_INTERVAL_NS,
        let_through(limiter_after(r, is_failure, t), !is_failure, later) == let_through(
            r,
            !is_failure,
            later,
        ),
{
}

/// A refused notification leaves the limiter as it was, so refusals do not
/// extend the interval.
pub proof fn lemma_refusal_keeps_limiter(r: RateLimiter, is_failure: bool, t: u64)
    requires
        !let_through(r, is_failure, t),
    ensures
        limiter_after(r, is_failure, t) == r,
{
}

} // verus!
