//! Images from Stable Diffusion on the Stable Horde, with progress written in MarkdownV2.
use vstd::prelude::*;

use crate::images::{byte_seqs, decoded_origins, decoded_pictures, origins, ImageKind, Picture};
use crate::commands::stablehorde::{credited, progress_bar, spec_progress_bar};
use crate::commands::CommandTrait;
use crate::encoding::{base64_standard, decode_base64};
use crate::rate_limit::RateLimiter;
use crate::tally::name_counts;
use crate::text::{decimal, join, join_strings, push_decimal, push_str, string_from_chars};

verus! {

/// Generates images with Stable Diffusion on the Stable Horde.
pub struct StableDiffusion;

impl StableDiffusion {
    pub fn rate_limit(&self) -> (r: RateLimiter<i64>)
        ensures
            r@.limit == 3,
            r@.duration == 120,
            r@.history == Map::<i64, Seq<i32>>::empty(),
    {
        RateLimiter::new(3, 120)
    }
}

impl CommandTrait for StableDiffusion {
    open spec fn spec_names(&self) -> Seq<Seq<char>> {
        seq!["stable_diffusion"@, "sd"@]
    }

    open spec fn spec_description(&self) -> Option<Seq<char>> {
        None
    }

    fn command_names(&self) -> (r: &[&str]) {
        let r: &[&str] = &["stable_diffusion", "sd"];
        assert(r@.map_values(|s: &str| s@) =~= self.spec_names());
        r
    }

    fn description(&self) -> (r: Option<&'static str>) {
        None
    }
}

impl StableDiffusion {
    /// The name the command is invoked by.
    pub fn name(&self) -> (r: &'static str)
        ensures
            r@ == "stable_diffusion"@,
    {
        "stable_diffusion"
    }

    /// The other names the command is invoked by.
    pub fn aliases(&self) -> (r: &[&str])
        ensures
            r@.map_values(|s: &str| s@) == seq!["sd"@],
    {
        let r: &[&str] = &["sd"];
        assert(r@.map_values(|s: &str| s@) =~= seq!["sd"@]);
        r
    }
}

/// The invitation to volunteer, in MarkdownV2.
pub const JOIN_STABLE_HORDE: &'static str = "\n\nStable Horde is run by volunteers\\. To make waiting times shorter, [consider joining the horde yourself](https://stablehorde.net/)\\!";

/// What the command does with its arguments before asking the Horde for
/// anything.
#[derive(Debug)]
pub enum PromptStep {
    /// Generate images for this prompt.
    Generate(String),
    /// Tell the user that this argument is missing; the command then ends
    /// successfully, without a request to the Horde or a status message.
    ReplyMissingArgument(&'static str),
}

/// The prompt is the whole of the arguments; without one the user is told
/// that the "prompt to generate" is missing and the command succeeds.
pub fn prompt_argument(arguments: Option<String>) -> (r: PromptStep)
    ensures
        match arguments {
            Some(p) => r == PromptStep::Generate(p),
            None => r matches PromptStep::ReplyMissingArgument(m) && m@ == "prompt to generate"@,
        },
{
    match arguments {
        Some(p) => PromptStep::Generate(p),
        None => PromptStep::ReplyMissingArgument("prompt to generate"),
    }
}

/// The first status message.
pub fn generating_text(prompt: &str) -> (r: String)
    ensures
        r@ == "Generating "@ + prompt@ + "…"@,
{
    let mut out: Vec<char> = Vec::new();
    push_str(&mut out, "Generating ");
    push_str(&mut out, prompt);
    push_str(&mut out, "…");
    string_from_chars(out.as_slice())
}

/// A request's progress as the Horde reports it.
#[derive(PartialEq, Eq, Structural, Clone, Copy)]
pub struct HordeStatus {
    pub waiting: usize,
    pub processing: usize,
    pub finished: usize,
    pub done: bool,
    /// Seconds until the images should be ready.
    pub wait_time: u64,
    pub queue_position: u64,
}

/// What the polling loop remembers between two checks.
pub struct PollState {
    /// The first nonzero wait time reported; zero until then.
    pub first_wait_time: u64,
    /// When the status message was last written, in milliseconds.
    pub last_edit_ms: Option<u64>,
    /// The status that the message shows.
    pub last_status: Option<HordeStatus>,
}

/// What to do after a check.
pub enum PollStep {
    /// The images are ready.
    Done,
    /// Leave the message as it is.
    Skip,
    /// Write the status into the message, with the invitation to volunteer
    /// when `join_notice` is set.
    Publish { join_notice: bool },
}

/// The least time between two writes of the message, in milliseconds.
pub const EDIT_INTERVAL_MS: u64 = 10000;

/// A first wait of at least this many seconds brings up the invitation.
pub const LONG_WAIT_SECS: u64 = 30;

/// The message is written when the status changed, at most once per
/// `EDIT_INTERVAL_MS`.
pub open spec fn due(state: PollState, status: HordeStatus, now_ms: u64) -> bool {
    state.last_status != Some(status) && match state.last_edit_ms {
        None => true,
        Some(t) => now_ms - t >= EDIT_INTERVAL_MS,
    }
}

impl PollState {
    pub fn new() -> (r: Self)
        ensures
            r.first_wait_time == 0,
            r.last_edit_ms is None,
            r.last_status is None,
    {
        PollState { first_wait_time: 0, last_edit_ms: None, last_status: None }
    }

    /// Decides what a status checked at `now_ms` leads to.
    pub fn step(&mut self, status: HordeStatus, now_ms: u64) -> (r: PollStep)
        ensures
            final(self).first_wait_time == (if old(self).first_wait_time == 0 {
                status.wait_time
            } else {
                old(self).first_wait_time
            }),
            status.done ==> (r is Done) && final(self).last_edit_ms == old(self).last_edit_ms
                && final(self).last_status == old(self).last_status,
            !status.done && due(*old(self), status, now_ms) ==> r == (PollStep::Publish {
                join_notice: final(self).first_wait_time >= LONG_WAIT_SECS,
            }) && final(self).last_edit_ms == Some(now_ms) && final(self).last_status == Some(status),
            !status.done && !due(*old(self), status, now_ms) ==> (r is Skip)
                && final(self).last_edit_ms == old(self).last_edit_ms && final(self).last_status
                == old(self).last_status,
    {
        if self.first_wait_time == 0 {
            self.first_wait_time = status.wait_time;
        }
        if status.done {
            return PollStep::Done;
        }
        let changed = match self.last_status {
            Some(last) => last != status,
            None => true,
        };
        let waited = match self.last_edit_ms {
            None => true,
            Some(t) => now_ms >= t && now_ms - t >= EDIT_INTERVAL_MS,
        };
        if changed && waited {
            self.last_edit_ms = Some(now_ms);
            self.last_status = Some(status);
            PollStep::Publish { join_notice: self.first_wait_time >= LONG_WAIT_SECS }
        } else {
            PollStep::Skip
        }
    }
}

/// Two writes of the status message lie at least `EDIT_INTERVAL_MS` apart,
/// and an unchanged status is never written again.
pub proof fn lemma_edit_spacing(state: PollState, status: HordeStatus, now_ms: u64)
    requires
        due(state, status, now_ms),
    ensures
        state.last_status != Some(status),
        state.last_edit_ms matches Some(t) ==> now_ms >= t + EDIT_INTERVAL_MS,
{
}

/// The queue line, when the request is queued.
pub open spec fn queue_line(position: u64) -> Seq<char> {
    if position > 0 {
        "Queue position: "@ + decimal(position as nat) + "\n"@
    } else {
        Seq::empty()
    }
}

/// The status message in MarkdownV2, from the escaped prompt and the wait
/// already written out.
pub open spec fn spec_status_markdown(escaped_prompt: Seq<char>, status: HordeStatus, eta: Seq<char>, join_notice: bool) -> Seq<char> {
    "Generating "@ + escaped_prompt + "…\n"@ + queue_line(status.queue_position) + "`"@
        + spec_progress_bar(status.waiting as nat, status.processing as nat, status.finished as nat)
        + "` ETA: "@ + eta + (if join_notice {
        JOIN_STABLE_HORDE@
    } else {
        Seq::empty()
    })
}

/// The status message.
pub fn status_markdown(escaped_prompt: &str, status: &HordeStatus, eta: &str, join_notice: bool) -> (r: String)
    requires
        4 * (status.waiting + status.processing + status.finished) + 2 <= usize::MAX,
        5 * status.waiting <= usize::MAX,
        5 * status.processing <= usize::MAX,
        5 * status.finished <= usize::MAX,
    ensures
        r@ == spec_status_markdown(escaped_prompt@, *status, eta@, join_notice),
{
    let mut out: Vec<char> = Vec::new();
    push_str(&mut out, "Generating ");
    push_str(&mut out, escaped_prompt);
    push_str(&mut out, "…\n");
    if status.queue_position > 0 {
        push_str(&mut out, "Queue position: ");
        push_decimal(&mut out, status.queue_position as u128);
        push_str(&mut out, "\n");
    }
    push_str(&mut out, "`");
    let bar = progress_bar(status.waiting, status.processing, status.finished);
    push_str(&mut out, bar.as_str());
    push_str(&mut out, "` ETA: ");
    push_str(&mut out, eta);
    if join_notice {
        push_str(&mut out, JOIN_STABLE_HORDE);
    }
    assert(out@ =~= spec_status_markdown(escaped_prompt@, *status, eta@, join_notice));
    string_from_chars(out.as_slice())
}

/// How a worker is credited: its name, and the number of its images when
/// it made more than one.
pub open spec fn credit(name: Seq<char>, count: nat) -> Seq<char> {
    if count > 1 {
        name + " ("@ + decimal(count) + ")"@
    } else {
        name
    }
}

/// The credits for the workers, in the order of their counts.
pub fn worker_credits(counts: &Vec<(String, usize)>) -> (r: Vec<String>)
    ensures
        r@.len() == counts@.len(),
        forall|i: int| 0 <= i < counts@.len() ==> #[trigger] r@[i]@ == credit(counts@[i].0@, counts@[i].1 as nat),
{
    let mut r: Vec<String> = Vec::new();
    let mut i: usize = 0;
    while i < counts.len()
        invariant
            i <= counts.len(),
            r@.len() == i,
            forall|j: int| 0 <= j < i ==> #[trigger] r@[j]@ == credit(counts@[j].0@, counts@[j].1 as nat),
        decreases counts.len() - i,
    {
        let mut out: Vec<char> = Vec::new();
        push_str(&mut out, counts[i].0.as_str());
        if counts[i].1 > 1 {
            push_str(&mut out, " (");
            push_decimal(&mut out, counts[i].1 as u128);
            push_str(&mut out, ")");
        }
        r.push(string_from_chars(out.as_slice()));
        i = i + 1;
    }
    r
}

/// The credits for the workers of the images, counted from the worker of
/// each image, the most common first.
pub fn credits_for(image_workers: &Vec<String>) -> (r: Vec<String>)
    ensures
        exists|workers: Seq<(String, usize)>|
            credited(workers, image_workers@) && r@.len() == workers.len() && forall|i: int|
                0 <= i < workers.len() ==> #[trigger] r@[i]@ == credit(workers[i].0@, workers[i].1 as nat),
{
    let counts = name_counts(image_workers);
    let r = worker_credits(&counts);
    assert(credited(counts@, image_workers@));
    r
}

/// The caption in MarkdownV2, from the escaped prompt, the duration already
/// written out and the escaped credits.
pub fn caption_markdown(escaped_prompt: &str, duration: &str, credits: &Vec<String>) -> (r: String)
    ensures
        r@ == "Generated *"@ + escaped_prompt@ + "* in "@ + duration@ + " by "@ + join(
            credits@.map_values(|c: String| c@),
            ", "@,
        ) + "\\."@,
{
    let mut out: Vec<char> = Vec::new();
    push_str(&mut out, "Generated *");
    push_str(&mut out, escaped_prompt);
    push_str(&mut out, "* in ");
    push_str(&mut out, duration);
    push_str(&mut out, " by ");
    let joined = join_strings(credits, ", ");
    push_str(&mut out, joined.as_str());
    push_str(&mut out, "\\.");
    string_from_chars(out.as_slice())
}

/// The images that decode, in order; the others are left out.
pub open spec fn decodable(data: Seq<String>) -> Seq<Seq<u8>>
    decreases data.len(),
{
    if data.len() == 0 {
        Seq::empty()
    } else {
        decodable(data.drop_last()) + match base64_standard(data.last()@) {
            Some(bytes) => seq![bytes],
            None => Seq::empty(),
        }
    }
}

/// Decodes the images the workers sent, skipping those that are not valid
/// base64.
pub fn decoded_images(data: &Vec<String>) -> (r: Vec<Vec<u8>>)
    ensures
        r@.map_values(|b: Vec<u8>| b@) == decodable(data@),
{
    let mut r: Vec<Vec<u8>> = Vec::new();
    let mut i: usize = 0;
    while i < data.len()
        invariant
            i <= data.len(),
            r@.map_values(|b: Vec<u8>| b@) == decodable(data@.take(i as int)),
        decreases data.len() - i,
    {
        assert(data@.take(i + 1).drop_last() =~= data@.take(i as int));
        let ghost before = r@;
        match decode_base64(data[i].as_str()) {
            Ok(bytes) => {
                r.push(bytes);
                assert(r@.map_values(|b: Vec<u8>| b@) =~= before.map_values(|b: Vec<u8>| b@).push(
                    base64_standard(data@[i as int]@)->0,
                ));
            },
            Err(_) => {},
        }
        i = i + 1;
    }
    assert(data@.take(data.len() as int) =~= data@);
    r
}

/// The button under the images: its text and address.
pub fn credit_button() -> (r: (&'static str, &'static str))
    ensures
        r.0@ == "Generated thanks to Stable Horde"@,
        r.1@ == "https://stablehorde.net/"@,
{
    ("Generated thanks to Stable Horde", "https://stablehorde.net/")
}

/// The decoded images that are WebP pictures, in order, for the collage.
pub fn result_pictures(images: &Vec<Vec<u8>>) -> (r: Vec<Picture>)
    ensures
        origins(r@) == decoded_origins(byte_seqs(images@), true, None),
{
    decoded_pictures(images, ImageKind::WebP, None)
}

} // verus!
