use vstd::prelude::*;
use crate::text::{chars_of, has_text, contains_text};

verus! {

/// Metal device type classification based on Apple Silicon architecture.
///
/// The last character of the architecture name tells the device type:
/// - 'p': phone (iPhone, small device)
/// - 'g': base/pro (M1/M2/M3 base and Pro variants)
/// - 's': max (M1/M2/M3 Max)
/// - 'd': ultra (M1/M2 Ultra)
#[derive(Debug, Clone, Copy, PartialEq, Eq, Hash, Structural)]
pub enum MetalDeviceType {
    /// Small device (iPhone, 'p' suffix)
    Phone,
    /// Base/Pro device (M1/M2/M3 base and Pro, 'g' suffix)
    BasePro,
    /// Max device (M1/M2/M3 Max, 's' suffix)
    Max,
    /// Ultra device (M1/M2 Ultra, 'd' suffix)
    Ultra,
    /// Unknown or medium device (default)
    Medium,
}

/// The device type that an architecture name (e.g. "applegpu_g13g") stands for.
pub open spec fn device_type_of(arch: Seq<char>) -> MetalDeviceType {
    if arch.len() == 0 {
        MetalDeviceType::Medium
    } else if arch.last() == 'p' {
        MetalDeviceType::Phone
    } else if arch.last() == 'g' {
        MetalDeviceType::BasePro
    } else if arch.last() == 's' {
        MetalDeviceType::Max
    } else if arch.last() == 'd' {
        MetalDeviceType::Ultra
    } else {
        MetalDeviceType::Medium
    }
}

impl MetalDeviceType {
    /// The device type of a device whose architecture is named `arch`,
    /// read from the last character of the name.
    pub fn from_architecture_name(arch: &str) -> (t: Self)
        ensures
            t == device_type_of(arch@),
    {
        let chars = chars_of(arch);
        if chars.len() == 0 {
            return MetalDeviceType::Medium;
        }
        let last = chars[chars.len() - 1];
        if last == 'p' {
            MetalDeviceType::Phone
        } else if last == 'g' {
            MetalDeviceType::BasePro
        } else if last == 's' {
            MetalDeviceType::Max
        } else if last == 'd' {
            MetalDeviceType::Ultra
        } else {
            MetalDeviceType::Medium
        }
    }
}

/// How many times compiling a Metal library from source is tried.
pub const MAX_COMPILE_ATTEMPTS: u32 = 3;

/// How long to wait before trying again after a transient failure, in milliseconds.
pub const COMPILE_RETRY_DELAY_MS: u64 = 200;

/// A compiler failure that a retry may cure: the shader compiler service was
/// interrupted, which its message tells by mentioning XPC.
pub open spec fn is_transient_failure(message: Seq<char>) -> bool {
    contains_text(message, "XPC"@)
}

/// Whether a compiler failure message tells of a transient XPC failure.
pub fn is_transient_failure_message(message: &str) -> (r: bool)
    ensures
        r == is_transient_failure(message@),
{
    has_text(message, "XPC")
}

/// What follows a failed attempt at compiling.
#[derive(Debug, Clone, Copy, PartialEq, Eq, Hash, Structural)]
pub enum RetryDecision {
    /// Wait `COMPILE_RETRY_DELAY_MS`, then try again.
    RetryAfterDelay,
    /// Give up: the compilation fails with the message of this failure.
    Stop,
}

/// The attempts made so far at compiling a Metal library from source.
///
/// Compiling is retried only on transient XPC failures: after a failure that
/// mentions XPC, when fewer than `MAX_COMPILE_ATTEMPTS` attempts were made,
/// the caller waits `COMPILE_RETRY_DELAY_MS` and tries again. Any other
/// failure, or the failure of the last allowed attempt, ends the compilation,
/// which then fails with the message of that last failure.
pub struct CompileRetry {
    attempts: u32,
    stopped: bool,
    last_error: Option<String>,
}

impl CompileRetry {
    /// No more attempts than allowed were made.
    pub closed spec fn wf(&self) -> bool {
        self.attempts <= MAX_COMPILE_ATTEMPTS
    }

    /// How many attempts have failed so far.
    pub closed spec fn failed_attempts(&self) -> nat {
        self.attempts as nat
    }

    /// Whether a failure that no retry cures has ended the compilation.
    pub closed spec fn stopped(&self) -> bool {
        self.stopped
    }

    /// Whether another attempt may be made: none ended the compilation and
    /// fewer than `MAX_COMPILE_ATTEMPTS` were made.
    pub open spec fn can_attempt(&self) -> bool {
        !self.stopped() && self.failed_attempts() < MAX_COMPILE_ATTEMPTS
    }

    /// The message of the latest failure, if any.
    pub closed spec fn last_error(&self) -> Option<Seq<char>> {
        match self.last_error {
            Some(e) => Some(e@),
            None => None,
        }
    }

    /// Nothing tried yet.
    pub fn new() -> (r: Self)
        ensures
            r.wf(),
            r.failed_attempts() == 0,
            !r.stopped(),
            r.last_error() is None,
    {
        CompileRetry { attempts: 0, stopped: false, last_error: None }
    }

    /// Whether another attempt may be made.
    pub fn may_attempt(&self) -> (r: bool)
        ensures
            r == self.can_attempt(),
    {
        !self.stopped && self.attempts < MAX_COMPILE_ATTEMPTS
    }

    /// Records that an attempt failed with `message`, and tells what follows:
    /// a retry after the delay when the failure is a transient one and another
    /// attempt is allowed; else the end of the compilation.
    pub fn record_failure(&mut self, message: String) -> (next: RetryDecision)
        requires
            old(self).wf(),
            old(self).can_attempt(),
        ensures
            final(self).wf(),
            final(self).failed_attempts() == old(self).failed_attempts() + 1,
            final(self).stopped() == !is_transient_failure(message@),
            final(self).last_error() == Some(message@),
            next == (if final(self).can_attempt() {
                RetryDecision::RetryAfterDelay
            } else {
                RetryDecision::Stop
            }),
            next == RetryDecision::RetryAfterDelay <==> (old(self).failed_attempts() + 1
                < MAX_COMPILE_ATTEMPTS && is_transient_failure(message@)),
    {
        let transient = is_transient_failure_message(message.as_str());
        self.attempts = self.attempts + 1;
        self.stopped = !transient;
        self.last_error = Some(message);
        if !self.stopped && self.attempts < MAX_COMPILE_ATTEMPTS {
            RetryDecision::RetryAfterDelay
        } else {
            RetryDecision::Stop
        }
    }

    /// The message that compiling fails with: that of the last failure, or
    /// an empty one when no attempt failed.
    pub fn failure_message(self) -> (m: String)
        ensures
            m@ == match self.last_error() {
                Some(e) => e,
                None => Seq::<char>::empty(),
            },
    {
        match self.last_error {
            Some(e) => e,
            None => String::new(),
        }
    }
}

/// A failure that does not mention XPC ends the compilation at once: after
/// it no attempt may be made, and the compilation fails with its message.
/// A run of attempts never goes past `MAX_COMPILE_ATTEMPTS`.
pub proof fn lemma_only_transient_failures_are_retried(
    before: CompileRetry,
    after: CompileRetry,
    message: Seq<char>,
)
    requires
        before.wf(),
        before.can_attempt(),
        after.wf(),
        after.failed_attempts() == before.failed_attempts() + 1,
        after.stopped() == !is_transient_failure(message),
        after.last_error() == Some(message),
    ensures
        !is_transient_failure(message) ==> !after.can_attempt(),
        after.can_attempt() ==> is_transient_failure(message) && after.failed_attempts()
            < MAX_COMPILE_ATTEMPTS,
        after.failed_attempts() <= MAX_COMPILE_ATTEMPTS,
{
}

/// The URL of the precompiled library file at `path`.
pub open spec fn metallib_url_of(path: Seq<char>) -> Seq<char> {
    "file://"@ + path
}

/// The URL of the precompiled library file at `path`.
pub fn metallib_url(path: &str) -> (url: String)
    ensures
        url@ == metallib_url_of(path@),
{
    let mut url = String::from_str("file://");
    url.append(path);
    url
}

/// The error message when `path` cannot be made into a URL.
pub fn invalid_metallib_path_message(path: &str) -> (m: String)
    ensures
        m@ == "Invalid metallib path: "@ + path@,
{
    let mut m = String::from_str("Invalid metallib path: ");
    m.append(path);
    m
}

/// The error message when the precompiled library at `path` fails to load
/// with the device's message `error`.
pub fn metallib_load_failure_message(path: &str, error: &str) -> (m: String)
    ensures
        m@ == "Failed to load metallib '"@ + path@ + "': "@ + error@,
{
    let mut m = String::from_str("Failed to load metallib '");
    m.append(path);
    m.append("': ");
    m.append(error);
    m
}

/// A compiler failure is transient exactly when its message holds the three
/// characters `X`, `P`, `C` in a row somewhere, whatever else the message says.
pub proof fn lemma_transient_failure_is_xpc_mention(message: Seq<char>, i: int)
    ensures
        0 <= i && i + 3 <= message.len() && message[i] == 'X' && message[i + 1] == 'P'
            && message[i + 2] == 'C' ==> is_transient_failure(message),
        is_transient_failure(message) ==> exists|k: int|
            0 <= k && k + 3 <= message.len() && #[trigger] message[k] == 'X' && message[k + 1] == 'P'
                && message[k + 2] == 'C',
{
    reveal_strlit("XPC");
    if 0 <= i && i + 3 <= message.len() && message[i] == 'X' && message[i + 1] == 'P' && message[i
        + 2] == 'C' {
        assert(message.subrange(i, i + "XPC"@.len()) =~= "XPC"@);
        crate::text::lemma_contains_text_at(message, "XPC"@, i);
    }
    if is_transient_failure(message) {
        let k = choose|k: int|
            0 <= k <= message.len() - "XPC"@.len() && #[trigger] message.subrange(k, k + "XPC"@.len())
                == "XPC"@;
        assert(message.subrange(k, k + 3)[0] == message[k]);
        assert(message.subrange(k, k + 3)[1] == message[k + 1]);
        assert(message.subrange(k, k + 3)[2] == message[k + 2]);
    }
}

/// The first failure of a compilation whose message mentions XPC is retried
/// after the delay; one that does not ends the compilation.
pub proof fn lemma_first_xpc_failure_is_retried(message: Seq<char>, i: int)
    requires
        0 <= i && i + 3 <= message.len() && message[i] == 'X' && message[i + 1] == 'P'
            && message[i + 2] == 'C',
    ensures
        0 + 1 < MAX_COMPILE_ATTEMPTS && is_transient_failure(message),
{
    lemma_transient_failure_is_xpc_mention(message, i);
}

/// The URL of a file is `file://` followed by the file's path, character for
/// character, whatever the path's length.
pub proof fn lemma_metallib_url_shape(path: Seq<char>)
    ensures
        metallib_url_of(path).len() == path.len() + 7,
        metallib_url_of(path).subrange(0, 7) == seq!['f', 'i', 'l', 'e', ':', '/', '/'],
        metallib_url_of(path).subrange(7, path.len() + 7int) == path,
{
    reveal_strlit("file://");
    assert(metallib_url_of(path).subrange(0, 7) =~= seq!['f', 'i', 'l', 'e', ':', '/', '/']);
    assert(metallib_url_of(path).subrange(7, path.len() + 7int) =~= path);
}

/// The device type depends on the last character of the architecture name
/// alone: `p` phone, `g` base/pro, `s` max, `d` ultra, anything else (or an
/// empty name) medium, whatever comes before it.
pub proof fn lemma_device_type_by_last_char(prefix: Seq<char>, last: char)
    ensures
        device_type_of(Seq::<char>::empty()) == MetalDeviceType::Medium,
        device_type_of(prefix.push(last)) == (if last == 'p' {
            MetalDeviceType::Phone
        } else if last == 'g' {
            MetalDeviceType::BasePro
        } else if last == 's' {
            MetalDeviceType::Max
        } else if last == 'd' {
            MetalDeviceType::Ultra
        } else {
            MetalDeviceType::Medium
        }),
        forall|other: Seq<char>| #[trigger] device_type_of(other.push(last)) == device_type_of(
            prefix.push(last),
        ),
{
}

} // verus!
