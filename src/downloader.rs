//! Download URLs, and the progress that a streamed download reports.

use vstd::prelude::*;
use vstd::string::*;
use crate::error::InstallError;
use crate::platform::{Arch, Os, Platform, platform_of};
use crate::text::concat5;

verus! {

/// Where every release artifact is published.
pub const RELEASES_URL: &'static str = "https://github.com/a7mddra/spatialshot/releases/latest/download";

/// Stage of a component that a progress event reports.
#[derive(Debug, Clone, Copy, PartialEq, Eq)]
pub enum Phase {
    Downloading,
    Extracting,
    Done,
}

impl Phase {
    /// The status word carried by a progress notification.
    pub open spec fn text(self) -> Seq<char> {
        match self {
            Phase::Downloading => "downloading"@,
            Phase::Extracting => "extracting"@,
            Phase::Done => "done"@,
        }
    }

    pub fn status(&self) -> (r: &'static str)
        ensures
            r@ == self.text(),
    {
        match self {
            Phase::Downloading => "downloading",
            Phase::Extracting => "extracting",
            Phase::Done => "done",
        }
    }
}

/// A progress notification for one component.
#[derive(Debug, Clone, PartialEq, Eq)]
pub struct DownloadEvent {
    pub component: String,
    pub percent: u64,
    pub status: String,
}

impl DownloadEvent {
    /// The event says `percent` of `phase` for `component`.
    pub open spec fn says(self, component: Seq<char>, percent: u64, phase: Phase) -> bool {
        &&& self.component@ == component
        &&& self.percent == percent
        &&& self.status@ == phase.text()
    }

    pub fn new(component: &str, percent: u64, phase: Phase) -> (e: DownloadEvent)
        requires
            percent <= 100,
        ensures
            e.says(component@, percent, phase),
    {
        DownloadEvent {
            component: String::from_str(component),
            percent,
            status: String::from_str(phase.status()),
        }
    }
}

/// `<base>/<component>-<suffix>` for the platform's artifact suffix.
pub open spec fn artifact_url_spec(component: Seq<char>, platform: Platform) -> Seq<char> {
    RELEASES_URL@ + "/"@ + component + "-"@ + platform.suffix_spec()
}

impl Platform {
    /// The download URL of a component's artifact for this platform.
    pub fn artifact_url(&self, component: &str) -> (r: String)
        ensures
            r@ == artifact_url_spec(component@, *self),
    {
        concat5(RELEASES_URL, "/", component, "-", self.url_suffix())
    }
}

/// The download URL of a component for the host's operating system and
/// architecture; a pair without an artifact is refused before any request.
pub fn get_artifact_url(component: &str, os: Os, arch: Arch) -> (r: Result<String, InstallError>)
    ensures
        match platform_of(os, arch) {
            Some(p) => r is Ok && r->Ok_0@ == artifact_url_spec(component@, p),
            None => r == Err::<String, InstallError>(InstallError::UnsupportedPlatform),
        },
{
    match Platform::resolve(os, arch) {
        Ok(p) => Ok(p.artifact_url(component)),
        Err(e) => Err(e),
    }
}

/// `t` occurs in `s` starting at index `i`.
pub open spec fn occurs_at(s: Seq<char>, t: Seq<char>, i: int) -> bool {
    0 <= i && i + t.len() <= s.len() && s.subrange(i, i + t.len()) == t
}

/// `t` occurs somewhere in `s`.
pub open spec fn contains(s: Seq<char>, t: Seq<char>) -> bool {
    exists|i: int| occurs_at(s, t, i)
}

/// A download URL holds the word `unknown` only where the component's name
/// does: no part that the URL builder adds can produce it.
pub proof fn lemma_url_has_no_sentinel(component: Seq<char>, p: Platform)
    requires
        !contains(component, "unknown"@),
    ensures
        !contains(artifact_url_spec(component, p), "unknown"@),
{
    reveal_strlit("unknown");
    reveal_strlit("/");
    reveal_strlit("-");
    reveal_strlit("https://github.com/a7mddra/spatialshot/releases/latest/download");
    reveal_strlit("win-x64.zip");
    reveal_strlit("linux-x64.zip");
    reveal_strlit("mac-arm64.zip");
    reveal_strlit("mac-x64.zip");
    let w = "unknown"@;
    let head = RELEASES_URL@ + "/"@;
    let tail = "-"@ + p.suffix_spec();
    let u = artifact_url_spec(component, p);
    let a = head.len() as int;
    let c = component.len() as int;
    assert(u =~= head + component + tail);
    assert(forall|j: int| 0 <= j < head.len() ==> head[j] != 'k');
    assert(forall|j: int| 0 <= j < tail.len() ==> tail[j] != 'k');
    assert(head[a - 1] == '/');
    assert(tail[0] == '-');
    if contains(u, w) {
        let i = choose|i: int| occurs_at(u, w, i);
        assert(u.subrange(i, i + 7)[2] == 'k');
        assert(u[i + 2] == 'k');
        assert(a <= i + 2 < a + c);
        if i < a {
            assert(u.subrange(i, i + 7)[a - 1 - i] == u[a - 1]);
            assert(false);
        }
        if i + 7 > a + c {
            assert(u.subrange(i, i + 7)[a + c - i] == u[a + c]);
            assert(false);
        }
        assert(component.subrange(i - a, i - a + 7) =~= u.subrange(i, i + 7));
        assert(occurs_at(component, w, i - a));
    }
}

/// The percentage reported after `downloaded` of `total` bytes arrived:
/// the floor of `downloaded * 100 / total`, never above 100.
pub open spec fn percent_of(downloaded: nat, total: nat) -> nat
    recommends
        total > 0,
{
    if downloaded >= total {
        100
    } else {
        (downloaded * 100) / total
    }
}

/// `a + b`, or the largest `u64` where the sum does not fit.
pub open spec fn saturating_add(a: u64, b: u64) -> u64 {
    if a + b <= u64::MAX {
        (a + b) as u64
    } else {
        u64::MAX
    }
}

/// The byte count after chunks of these lengths arrived, counted from zero.
pub open spec fn count_after(chunks: Seq<u64>) -> u64
    decreases chunks.len(),
{
    if chunks.len() == 0 {
        0
    } else {
        saturating_add(count_after(chunks.drop_last()), chunks.last())
    }
}

/// Byte count of a streamed download and the total size that the response
/// announced (0 when the size is unknown or zero). Once `done`, the stream
/// has ended and its one `Done` event was handed out: no further event
/// comes for the component.
pub struct DownloadProgress {
    pub total: u64,
    pub downloaded: u64,
    pub done: bool,
}

impl DownloadProgress {
    /// Tracking starts with nothing received.
    pub fn new(content_length: Option<u64>) -> (r: DownloadProgress)
        ensures
            r.total == match content_length { Some(n) => n, None => 0 },
            r.downloaded == 0,
            !r.done,
    {
        let total = match content_length {
            Some(n) => n,
            None => 0,
        };
        DownloadProgress { total, downloaded: 0, done: false }
    }

    /// Counts a chunk of `len` bytes, written to the file in arrival order.
    /// With a known nonzero total it returns the `Downloading` event to emit;
    /// with an unknown total it returns none. The count saturates at the
    /// largest `u64`.
    pub fn record_chunk(&mut self, component: &str, len: u64) -> (r: Option<DownloadEvent>)
        requires
            !old(self).done,
        ensures
            !final(self).done,
            final(self).total == old(self).total,
            final(self).downloaded == saturating_add(old(self).downloaded, len),
            old(self).total == 0 ==> r is None,
            old(self).total > 0 ==> r is Some && r->Some_0.says(
                component@,
                percent_of(final(self).downloaded as nat, old(self).total as nat) as u64,
                Phase::Downloading,
            ),
    {
        if len <= u64::MAX - self.downloaded {
            self.downloaded = self.downloaded + len;
        } else {
            self.downloaded = u64::MAX;
        }
        if self.total == 0 {
            None
        } else {
            let percent: u64 = if self.downloaded >= self.total {
                100
            } else {
                let d: u128 = self.downloaded as u128;
                let t: u128 = self.total as u128;
                let p: u128 = d * 100 / t;
                assert(p <= 100) by (nonlinear_arith)
                    requires
                        p as int == (d as int) * 100 / (t as int),
                        d < t,
                ;
                p as u64
            };
            Some(DownloadEvent::new(component, percent, Phase::Downloading))
        }
    }

    /// The terminal event, emitted once after the stream ended successfully,
    /// whether or not the total was known; it is the last event of the
    /// component, since no chunk is recorded and no second `Done` is made
    /// afterwards.
    pub fn finish(&mut self, component: &str) -> (r: DownloadEvent)
        requires
            !old(self).done,
        ensures
            final(self).done,
            final(self).total == old(self).total,
            final(self).downloaded == old(self).downloaded,
            r.says(component@, 100, Phase::Done),
    {
        self.done = true;
        DownloadEvent::new(component, 100, Phase::Done)
    }
}

/// The reported percentage never decreases as bytes arrive, and it stays
/// below 100 until every announced byte has arrived.
pub proof fn lemma_download_percent_monotone(total: nat, d1: nat, d2: nat)
    requires
        total > 0,
        d1 <= d2,
    ensures
        percent_of(d1, total) <= percent_of(d2, total),
        percent_of(d2, total) <= 100,
        d2 < total ==> percent_of(d2, total) <= 99,
{
    if d2 < total {
        assert((d1 * 100) / total <= (d2 * 100) / total) by (nonlinear_arith)
            requires
                d1 <= d2,
                total > 0,
        ;
        assert((d2 * 100) / total < 100) by (nonlinear_arith)
            requires
                d2 < total,
        ;
    } else if d1 < total {
        assert((d1 * 100) / total < 100) by (nonlinear_arith)
            requires
                d1 < total,
        ;
    }
}

/// Over a whole stream of chunks with a known nonzero total, the
/// `Downloading` percentages never decrease from one chunk to a later one,
/// and each stays within [0, 99] while fewer bytes than the total have
/// arrived.
pub proof fn lemma_download_percents_in_order(total: u64, chunks: Seq<u64>, i: int, j: int)
    requires
        total > 0,
        0 <= i <= j <= chunks.len(),
    ensures
        count_after(chunks.take(i)) <= count_after(chunks.take(j)),
        percent_of(count_after(chunks.take(i)) as nat, total as nat)
            <= percent_of(count_after(chunks.take(j)) as nat, total as nat),
        count_after(chunks.take(j)) < total ==> percent_of(count_after(chunks.take(j)) as nat, total as nat) <= 99,
    decreases j - i,
{
    if i < j {
        lemma_download_percents_in_order(total, chunks, i, j - 1);
        assert(chunks.take(j).drop_last() =~= chunks.take(j - 1));
    }
    lemma_download_percent_monotone(
        total as nat,
        count_after(chunks.take(i)) as nat,
        count_after(chunks.take(j)) as nat,
    );
}

} // verus!
