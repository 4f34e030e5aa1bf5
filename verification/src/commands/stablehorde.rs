//! Image generation on the Stable Horde, a volunteer-run pool of workers.
use vstd::prelude::*;

use crate::images::{byte_seqs, decoded_origins, decoded_pictures, origins, ImageKind, Picture};
use crate::commands::craiyon::{download_link_entities, download_links};
use crate::commands::{CommandError, CommandTrait};
use crate::message_entities::{
    bold, bold_text, code, code_text, link, plain, text, text_str, views, with_url, Entity,
    EntityView,
};
use crate::tally::{name_counts, name_multiset};
use crate::rate_limit::RateLimiter;
use crate::text::{decimal, decimal_string, push_decimal, push_str, string_from_chars};

verus! {

pub struct StableHorde {
    command_names: &'static [&'static str],
    description: &'static str,
    model: &'static str,
    size: (u32, u32),
}

/// The state of a queued generation as the Horde reports it.
#[derive(PartialEq, Eq, Structural, Clone, Copy)]
pub struct Status {
    pub finished: i32,
    pub processing: i32,
    pub waiting: i32,
    pub done: bool,
    pub faulted: bool,
    pub wait_time: u32,
    pub queue_position: u32,
    pub is_possible: bool,
}

/// `n` copies of `c`.
pub open spec fn repeat(c: char, n: nat) -> Seq<char> {
    Seq::new(n, |i: int| c)
}

/// A bar with five characters per image: `=` finished, `-` in progress,
/// ` ` waiting.
pub open spec fn spec_progress_bar(waiting: nat, processing: nat, finished: nat) -> Seq<char> {
    seq!['['] + repeat('=', 5 * finished) + repeat('-', 5 * processing) + repeat(' ', 5 * waiting)
        + seq![']']
}

fn push_repeat(out: &mut Vec<char>, c: char, n: usize)
    ensures
        final(out)@ == old(out)@ + repeat(c, n as nat),
{
    let ghost start = out@;
    let mut i: usize = 0;
    while i < n
        invariant
            i <= n,
            out@ == start + repeat(c, i as nat),
        decreases n - i,
    {
        out.push(c);
        i = i + 1;
        assert(out@ =~= start + repeat(c, i as nat));
    }
}

/// Draws the progress of a generation's images.
pub fn progress_bar(waiting: usize, processing: usize, finished: usize) -> (r: String)
    requires
        4 * (waiting + processing + finished) + 2 <= usize::MAX,
        5 * waiting <= usize::MAX,
        5 * processing <= usize::MAX,
        5 * finished <= usize::MAX,
    ensures
        r@ == spec_progress_bar(waiting as nat, processing as nat, finished as nat),
{
    let mut bar: Vec<char> = Vec::new();
    bar.push('[');
    push_repeat(&mut bar, '=', 5 * finished);
    push_repeat(&mut bar, '-', 5 * processing);
    push_repeat(&mut bar, ' ', 5 * waiting);
    bar.push(']');
    assert(bar@ =~= spec_progress_bar(waiting as nat, processing as nat, finished as nat));
    string_from_chars(bar.as_slice())
}

/// The absolute value of an `i32`, as `i32::unsigned_abs` gives it.
pub open spec fn abs(n: i32) -> nat {
    if n < 0 {
        (-n) as nat
    } else {
        n as nat
    }
}

fn unsigned_abs(n: i32) -> (r: usize)
    ensures
        r == abs(n),
{
    if n < 0 {
        if n == i32::MIN {
            2147483648
        } else {
            (-n) as usize
        }
    } else {
        n as usize
    }
}

/// The line about the queue, empty once the generation left the queue.
pub open spec fn queue_info(position: u32) -> Seq<char> {
    if position > 0 {
        "queue position: "@ + decimal(position as nat) + "\n"@
    } else {
        Seq::empty()
    }
}

/// The status message: the prompt, the queue position, a progress bar, the
/// expected time `eta` (as written by the caller), and, once waiting got long,
/// an invitation to volunteer.
pub open spec fn spec_status_text(
    status: Status,
    escaped_prompt: Seq<char>,
    volunteer_notice: bool,
    eta: Seq<char>,
) -> Seq<EntityView> {
    let base = seq![
        plain("generating "@),
        plain(escaped_prompt),
        plain("…\n"@),
        plain(queue_info(status.queue_position)),
        code(spec_progress_bar(abs(status.waiting), abs(status.processing), abs(status.finished))),
        plain(" ETA: "@),
        plain(eta),
    ];
    if volunteer_notice {
        base + seq![
            plain("\n\nStable Horde is run by volunteers. to make wait times shorter, "@),
            link(plain("consider joining yourself"@), "https://stablehorde.net/"@),
            plain("!"@),
        ]
    } else {
        base
    }
}

pub fn format_status_text(
    status: &Status,
    escaped_prompt: &str,
    volunteer_notice: bool,
    eta: &str,
) -> (r: Vec<Entity>)
    requires
        4 * (abs(status.waiting) + abs(status.processing) + abs(status.finished)) + 2 <= usize::MAX,
        5 * abs(status.waiting) <= usize::MAX,
        5 * abs(status.processing) <= usize::MAX,
        5 * abs(status.finished) <= usize::MAX,
    ensures
        views(r@) == spec_status_text(*status, escaped_prompt@, volunteer_notice, eta@),
{
    let mut queue: Vec<char> = Vec::new();
    if status.queue_position > 0 {
        push_str(&mut queue, "queue position: ");
        push_decimal(&mut queue, status.queue_position as u128);
        push_str(&mut queue, "\n");
    }
    assert(queue@ =~= queue_info(status.queue_position));
    let mut entities: Vec<Entity> = Vec::new();
    entities.push(text_str("generating "));
    entities.push(text_str(escaped_prompt));
    entities.push(text_str("…\n"));
    entities.push(text(string_from_chars(queue.as_slice())));
    entities.push(
        code_text(
            progress_bar(
                unsigned_abs(status.waiting),
                unsigned_abs(status.processing),
                unsigned_abs(status.finished),
            ),
        ),
    );
    entities.push(text_str(" ETA: "));
    entities.push(text_str(eta));
    if volunteer_notice {
        entities.push(
            text_str("\n\nStable Horde is run by volunteers. to make wait times shorter, "),
        );
        entities.push(
            with_url(
                text_str("consider joining yourself"),
                String::from_str("https://stablehorde.net/"),
            ),
        );
        entities.push(text_str("!"));
    }
    assert(views(entities@) =~= spec_status_text(
        *status,
        escaped_prompt@,
        volunteer_notice,
        eta@,
    ));
    entities
}

/// What the waiting loop remembers between two status checks.
pub struct WaitState {
    /// The status that the message shows.
    pub last_status: Option<Status>,
    /// When the message was last written, in milliseconds.
    pub last_edit_ms: Option<u64>,
    pub show_volunteer_notice: bool,
}

/// What to do after a status check.
pub enum WaitStep {
    /// The images are ready.
    Done,
    /// The generation failed with this message.
    Failed(String),
    /// No worker can run the request: cancel it and fail with this message.
    Cancel(String),
    /// Keep waiting; when `publish` is set, the status message is written
    /// with the status just checked.
    Continue { publish: bool },
}

/// Waits of at least 60 seconds bring up the invitation to volunteer.
pub open spec fn long_wait(status: Status) -> bool {
    status.wait_time >= 60
}

/// The message is written when the status changed, at most once per 12
/// seconds.
pub open spec fn should_publish(state: WaitState, status: Status, now_ms: u64) -> bool {
    state.last_status != Some(status) && match state.last_edit_ms {
        None => true,
        Some(t) => now_ms - t >= 12000,
    }
}

impl WaitState {
    pub fn new() -> (r: Self)
        ensures
            r.last_status is None,
            r.last_edit_ms is None,
            !r.show_volunteer_notice,
    {
        WaitState { last_status: None, last_edit_ms: None, show_volunteer_notice: false }
    }

    /// Decides what a status checked at `now_ms` leads to.
    pub fn step(&mut self, status: Status, now_ms: u64) -> (r: WaitStep)
        ensures
            status.done ==> r is Done && *final(self) == *old(self),
            !status.done && status.faulted ==> (r matches WaitStep::Failed(m)
                && m@ == "the generation timed out."@) && *final(self) == *old(self),
            !status.done && !status.faulted && !status.is_possible ==> (r matches WaitStep::Cancel(
                m,
            ) && m@ == "there are no online workers for the requested model."@) && *final(self)
                == *old(self),
            !status.done && !status.faulted && status.is_possible ==> {
                let publish = should_publish(*old(self), status, now_ms);
                &&& r == WaitStep::Continue { publish }
                &&& final(self).show_volunteer_notice == (old(self).show_volunteer_notice
                    || long_wait(status))
                &&& if publish {
                    final(self).last_status == Some(status) && final(self).last_edit_ms == Some(
                        now_ms,
                    )
                } else {
                    final(self).last_status == old(self).last_status && final(self).last_edit_ms
                        == old(self).last_edit_ms
                }
            },
    {
        if status.done {
            return WaitStep::Done;
        }
        if status.faulted {
            return WaitStep::Failed(String::from_str("the generation timed out."));
        }
        if !status.is_possible {
            return WaitStep::Cancel(
                String::from_str("there are no online workers for the requested model."),
            );
        }
        if status.wait_time >= 60 {
            self.show_volunteer_notice = true;
        }
        let changed = match self.last_status {
            Some(last) => last != status,
            None => true,
        };
        let due = match self.last_edit_ms {
            None => true,
            Some(t) => now_ms >= t && now_ms - t >= 12000,
        };
        let publish = changed && due;
        if publish {
            self.last_status = Some(status);
            self.last_edit_ms = Some(now_ms);
        }
        WaitStep::Continue { publish }
    }
}

/// Two writes of the status message lie at least 12 seconds apart, and an
/// unchanged status is never written again.
pub proof fn lemma_publish_spacing(state: WaitState, status: Status, now_ms: u64)
    requires
        should_publish(state, status, now_ms),
    ensures
        state.last_status != Some(status),
        state.last_edit_ms matches Some(t) ==> now_ms >= t + 12000,
{
}

/// Each worker after a comma, with its number of images when it made more
/// than one.
pub open spec fn worker_entities(ws: Seq<(String, usize)>) -> Seq<EntityView>
    decreases ws.len(),
{
    if ws.len() == 0 {
        Seq::empty()
    } else {
        worker_entities(ws.drop_last()) + seq![plain(", "@), plain(ws.last().0@)] + if ws.last().1 > 1 {
            seq![plain(" ("@), plain(decimal(ws.last().1 as nat)), plain(")"@)]
        } else {
            Seq::empty()
        }
    }
}

/// The workers, without the comma before the first.
pub open spec fn worker_list(ws: Seq<(String, usize)>) -> Seq<EntityView> {
    if ws.len() == 0 {
        Seq::empty()
    } else {
        worker_entities(ws).drop_first()
    }
}

/// The caption of the result: the prompt, how long it took, the workers
/// that made the images and links to each image.
pub open spec fn spec_result_text(prompt: Seq<char>, duration: Seq<char>, workers: Seq<(String, usize)>, urls: Seq<String>) -> Seq<EntityView> {
    seq![plain("generated "@), bold(prompt), plain(" in "@), plain(duration), plain(" by "@)]
        + worker_list(workers) + seq![plain(".\ndownload: "@)] + download_links(urls)
}

/// The caption, from the escaped prompt, the duration already written out,
/// the workers with their counts as shown and the images' addresses.
pub fn result_text(escaped_prompt: String, duration: String, workers: &Vec<(String, usize)>, urls: &Vec<String>) -> (r: Vec<Entity>)
    ensures
        views(r@) == spec_result_text(escaped_prompt@, duration@, workers@, urls@),
{
    let mut list: Vec<Entity> = Vec::new();
    let mut i: usize = 0;
    while i < workers.len()
        invariant
            i <= workers.len(),
            views(list@) == worker_entities(workers@.take(i as int)),
        decreases workers.len() - i,
    {
        let ghost before = views(list@);
        list.push(text_str(", "));
        list.push(text(workers[i].0.clone()));
        if workers[i].1 > 1 {
            list.push(text_str(" ("));
            list.push(text(decimal_string(workers[i].1 as u64)));
            list.push(text_str(")"));
        }
        assert(workers@.take(i + 1).drop_last() =~= workers@.take(i as int));
        assert(views(list@) =~= worker_entities(workers@.take(i + 1)));
        i = i + 1;
    }
    assert(workers@.take(workers.len() as int) =~= workers@);
    let ghost all = views(list@);
    if list.len() > 0 {
        list.remove(0);
        assert(views(list@) =~= all.drop_first());
    } else {
        assert(views(list@) =~= worker_list(workers@));
    }
    let mut links = download_link_entities(urls);
    let mut r: Vec<Entity> = Vec::new();
    r.push(text_str("generated "));
    r.push(bold_text(escaped_prompt));
    r.push(text_str(" in "));
    r.push(text(duration));
    r.push(text_str(" by "));
    r.append(&mut list);
    r.push(text_str(".\ndownload: "));
    r.append(&mut links);
    assert(views(r@) =~= spec_result_text(escaped_prompt@, duration@, workers@, urls@));
    r
}

/// The workers that made the images, each with its count, the most common
/// first (ties in any order).
pub open spec fn credited(workers: Seq<(String, usize)>, names: Seq<String>) -> bool {
    &&& forall|i: int|
        0 <= i < workers.len() ==> workers[i].1 > 0 && workers[i].1 == name_multiset(names).count(
            #[trigger] workers[i].0@,
        )
    &&& forall|i: int, j: int| 0 <= i < j < workers.len() ==> #[trigger] workers[i].0@ != #[trigger] workers[j].0@
    &&& forall|k: Seq<char>|
        #[trigger] name_multiset(names).count(k) > 0 ==> exists|i: int| 0 <= i < workers.len() && workers[i].0@ == k
    &&& forall|i: int, j: int| 0 <= i <= j < workers.len() ==> #[trigger] workers[j].1 <= #[trigger] workers[i].1
}

/// The caption, counting the images each worker made from the worker of
/// each image.
pub fn format_result_text(escaped_prompt: String, duration: String, image_workers: &Vec<String>, urls: &Vec<String>) -> (r: Vec<Entity>)
    ensures
        exists|workers: Seq<(String, usize)>|
            credited(workers, image_workers@) && views(r@) == spec_result_text(
                escaped_prompt@,
                duration@,
                workers,
                urls@,
            ),
{
    let counts = name_counts(image_workers);
    let ghost w = counts@;
    let r = result_text(escaped_prompt, duration, &counts, urls);
    assert(credited(w, image_workers@));
    r
}

/// A generation must have given at least one image whose address could be
/// built.
pub fn require_images(urls: &Vec<String>) -> (r: Result<(), CommandError>)
    ensures
        urls@.len() > 0 ==> r is Ok,
        urls@.len() == 0 ==> (r matches Err(CommandError::Custom(m)) && m@
            == "no images were successfully generated."@),
{
    if urls.len() == 0 {
        Err(CommandError::Custom(String::from_str("no images were successfully generated.")))
    } else {
        Ok(())
    }
}

/// The button under the images: its text and address.
pub fn credit_button() -> (r: (&'static str, &'static str))
    ensures
        r.0@ == "generated thanks to Stable Horde"@,
        r.1@ == "https://stablehorde.net/"@,
{
    ("generated thanks to Stable Horde", "https://stablehorde.net/")
}

impl StableHorde {
    pub closed spec fn spec_model(&self) -> Seq<char> {
        self.model@
    }

    pub closed spec fn spec_size(&self) -> (u32, u32) {
        self.size
    }

    pub fn stable_diffusion_2() -> (r: Self)
        ensures
            r.spec_names() == seq!["stable_diffusion_2"@, "sd2"@],
            r.spec_description() == Some("generate images using Stable Diffusion v2.1"@),
            r.spec_model() == "stable_diffusion_2.1"@,
            r.spec_size() == (512u32, 512u32),
    {
        let r = Self {
            command_names: &["stable_diffusion_2", "sd2"],
            description: "generate images using Stable Diffusion v2.1",
            model: "stable_diffusion_2.1",
            size: (512, 512),
        };
        assert(r.spec_names() =~= seq!["stable_diffusion_2"@, "sd2"@]);
        r
    }

    pub fn stable_diffusion() -> (r: Self)
        ensures
            r.spec_names() == seq!["stable_diffusion"@, "sd"@],
            r.spec_description() == Some("generate images using Stable Diffusion v1.5"@),
            r.spec_model() == "stable_diffusion"@,
            r.spec_size() == (512u32, 512u32),
    {
        let r = Self {
            command_names: &["stable_diffusion", "sd"],
            description: "generate images using Stable Diffusion v1.5",
            model: "stable_diffusion",
            size: (512, 512),
        };
        assert(r.spec_names() =~= seq!["stable_diffusion"@, "sd"@]);
        r
    }

    pub fn waifu_diffusion() -> (r: Self)
        ensures
            r.spec_names() == seq!["waifu_diffusion"@, "wd"@],
            r.spec_description() == Some("generate images using Waifu Diffusion"@),
            r.spec_model() == "waifu_diffusion"@,
            r.spec_size() == (512u32, 512u32),
    {
        let r = Self {
            command_names: &["waifu_diffusion", "wd"],
            description: "generate images using Waifu Diffusion",
            model: "waifu_diffusion",
            size: (512, 512),
        };
        assert(r.spec_names() =~= seq!["waifu_diffusion"@, "wd"@]);
        r
    }

    pub fn furry_diffusion() -> (r: Self)
        ensures
            r.spec_names() == seq!["furry_diffusion"@, "fd"@],
            r.spec_description() == Some("generate images using Furry Epoch"@),
            r.spec_model() == "Furry Epoch"@,
            r.spec_size() == (512u32, 512u32),
    {
        let r = Self {
            command_names: &["furry_diffusion", "fd"],
            description: "generate images using Furry Epoch",
            model: "Furry Epoch",
            size: (512, 512),
        };
        assert(r.spec_names() =~= seq!["furry_diffusion"@, "fd"@]);
        r
    }

    /// The model the Horde is asked for.
    pub fn model(&self) -> (r: &'static str)
        ensures
            r@ == self.spec_model(),
    {
        self.model
    }

    /// The size of the requested images.
    pub fn size(&self) -> (r: (u32, u32))
        ensures
            r == self.spec_size(),
    {
        self.size
    }

    pub fn rate_limit(&self) -> (r: RateLimiter<i64>)
        ensures
            r@.limit == 3,
            r@.duration == 300,
            r@.history == Map::<i64, Seq<i32>>::empty(),
    {
        RateLimiter::new(3, 300)
    }
}

impl CommandTrait for StableHorde {
    closed spec fn spec_names(&self) -> Seq<Seq<char>> {
        self.command_names@.map_values(|s: &str| s@)
    }

    closed spec fn spec_description(&self) -> Option<Seq<char>> {
        Some(self.description@)
    }

    fn command_names(&self) -> (r: &[&str]) {
        self.command_names
    }

    fn description(&self) -> (r: Option<&'static str>) {
        Some(self.description)
    }
}

/// The generated pictures that decode (WebP), in order, for the collage.
pub fn result_pictures(images: &Vec<Vec<u8>>) -> (r: Vec<Picture>)
    ensures
        origins(r@) == decoded_origins(byte_seqs(images@), true, None),
{
    decoded_pictures(images, ImageKind::WebP, None)
}

} // verus!
