//! The host snapshot: the facts the platform reported, and the page context
//! that shows each of them.
use vstd::prelude::*;
use crate::memory::{format_gib, gib_text};
use crate::text::{
    count_or_placeholder, count_text, or_placeholder, placeholder, text_or_placeholder,
};

verus! {

/// What the platform reported about the host at one moment. A fact that the
/// platform could not report is `None`.
pub struct HostSnapshot {
    pub os_name: Option<String>,
    pub os_version: Option<String>,
    pub kernel_version: Option<String>,
    /// Brand string of the first processor that the platform listed.
    pub cpu_model: Option<String>,
    pub physical_core_count: Option<usize>,
    /// Total memory in bytes.
    pub total_memory: u64,
    pub hostname: Option<String>,
}

/// The first entry of a processor list, if there is one.
pub open spec fn first_brand(brands: Seq<String>) -> Option<String> {
    if brands.len() > 0 {
        Some(brands[0])
    } else {
        None
    }
}

/// The snapshot made of the platform's answers.
pub open spec fn collected(
    os_name: Option<String>,
    os_version: Option<String>,
    kernel_version: Option<String>,
    cpu_brands: Seq<String>,
    physical_core_count: Option<usize>,
    total_memory: u64,
    hostname: Option<String>,
) -> HostSnapshot {
    HostSnapshot {
        os_name,
        os_version,
        kernel_version,
        cpu_model: first_brand(cpu_brands),
        physical_core_count,
        total_memory,
        hostname,
    }
}

impl HostSnapshot {
    /// Builds a snapshot from the platform's answers: the processor model is
    /// the brand of the first listed processor only, and is absent when the
    /// list is empty.
    pub fn collect(
        os_name: Option<String>,
        os_version: Option<String>,
        kernel_version: Option<String>,
        cpu_brands: &Vec<String>,
        physical_core_count: Option<usize>,
        total_memory: u64,
        hostname: Option<String>,
    ) -> (r: HostSnapshot)
        ensures
            r == collected(
                os_name,
                os_version,
                kernel_version,
                cpu_brands@,
                physical_core_count,
                total_memory,
                hostname,
            ),
    {
        let cpu_model = if cpu_brands.len() > 0 {
            Some(cpu_brands[0].clone())
        } else {
            None
        };
        HostSnapshot {
            os_name,
            os_version,
            kernel_version,
            cpu_model,
            physical_core_count,
            total_memory,
            hostname,
        }
    }
}

/// The values a host information page shows, one text per labelled field.
pub struct InfoContext {
    pub title: String,
    pub os_name: String,
    pub os_version: String,
    pub kernel_version: String,
    pub cpu_model: String,
    pub core_count: String,
    pub memory: String,
    pub hostname: String,
}

/// The texts of an [`InfoContext`].
pub struct InfoView {
    pub title: Seq<char>,
    pub os_name: Seq<char>,
    pub os_version: Seq<char>,
    pub kernel_version: Seq<char>,
    pub cpu_model: Seq<char>,
    pub core_count: Seq<char>,
    pub memory: Seq<char>,
    pub hostname: Seq<char>,
}

impl View for InfoContext {
    type V = InfoView;

    open spec fn view(&self) -> InfoView {
        InfoView {
            title: self.title@,
            os_name: self.os_name@,
            os_version: self.os_version@,
            kernel_version: self.kernel_version@,
            cpu_model: self.cpu_model@,
            core_count: self.core_count@,
            memory: self.memory@,
            hostname: self.hostname@,
        }
    }
}

/// Title of the host information page.
pub open spec fn info_title() -> Seq<char> {
    seq!['S', 'y', 's', 't', 'e', 'm', 'i', 'n', 'f', 'o', 'r', 'm', 'a', 't', 'i', 'o', 'n', 'e', 'n']
}

/// How a snapshot is shown: each reported fact as text, each missing one as
/// the placeholder, and memory in gibibytes with two decimals.
pub open spec fn shown_info(s: HostSnapshot) -> InfoView {
    InfoView {
        title: info_title(),
        os_name: text_or_placeholder(s.os_name),
        os_version: text_or_placeholder(s.os_version),
        kernel_version: text_or_placeholder(s.kernel_version),
        cpu_model: text_or_placeholder(s.cpu_model),
        core_count: count_or_placeholder(s.physical_core_count),
        memory: gib_text(s.total_memory as nat),
        hostname: text_or_placeholder(s.hostname),
    }
}

/// The page context that shows `snapshot`. It never fails: every missing
/// fact is shown as the placeholder.
pub fn info_context(snapshot: HostSnapshot) -> (r: InfoContext)
    ensures
        r@ == shown_info(snapshot),
{
    proof { reveal_strlit("Systeminformationen"); }
    let title = String::from_str("Systeminformationen");
    assert(title@ =~= info_title());
    InfoContext {
        title,
        os_name: or_placeholder(snapshot.os_name),
        os_version: or_placeholder(snapshot.os_version),
        kernel_version: or_placeholder(snapshot.kernel_version),
        cpu_model: or_placeholder(snapshot.cpu_model),
        core_count: count_text(snapshot.physical_core_count),
        memory: format_gib(snapshot.total_memory),
        hostname: or_placeholder(snapshot.hostname),
    }
}

/// Every fact that the platform did not report is shown as the placeholder,
/// in its own field, and every reported one as what was reported.
pub proof fn lemma_missing_fact_shows_placeholder(s: HostSnapshot)
    ensures
        s.os_name is None ==> shown_info(s).os_name == placeholder(),
        s.os_version is None ==> shown_info(s).os_version == placeholder(),
        s.kernel_version is None ==> shown_info(s).kernel_version == placeholder(),
        s.cpu_model is None ==> shown_info(s).cpu_model == placeholder(),
        s.physical_core_count is None ==> shown_info(s).core_count == placeholder(),
        s.hostname is None ==> shown_info(s).hostname == placeholder(),
        s.os_name matches Some(t) ==> shown_info(s).os_name == t@,
        s.os_version matches Some(t) ==> shown_info(s).os_version == t@,
        s.kernel_version matches Some(t) ==> shown_info(s).kernel_version == t@,
        s.cpu_model matches Some(t) ==> shown_info(s).cpu_model == t@,
        s.hostname matches Some(t) ==> shown_info(s).hostname == t@,
{
}

/// An empty processor list leaves the processor model absent, so it is shown
/// as the placeholder.
pub proof fn lemma_no_processor_shows_placeholder(
    os_name: Option<String>,
    os_version: Option<String>,
    kernel_version: Option<String>,
    cpu_brands: Seq<String>,
    physical_core_count: Option<usize>,
    total_memory: u64,
    hostname: Option<String>,
)
    requires
        cpu_brands.len() == 0,
    ensures
        shown_info(
            collected(
                os_name,
                os_version,
                kernel_version,
                cpu_brands,
                physical_core_count,
                total_memory,
                hostname,
            ),
        ).cpu_model == placeholder(),
{
}

/// Collecting twice from answers with the same texts gives snapshots that
/// are shown alike: the shown page depends on the reported texts alone.
pub proof fn lemma_collect_repeatable(
    os_name: Option<String>,
    os_version: Option<String>,
    kernel_version: Option<String>,
    cpu_brands_a: Seq<String>,
    cpu_brands_b: Seq<String>,
    physical_core_count: Option<usize>,
    total_memory: u64,
    hostname: Option<String>,
)
    requires
        cpu_brands_a.len() == cpu_brands_b.len(),
        forall|i: int| 0 <= i < cpu_brands_a.len() ==> (#[trigger] cpu_brands_a[i])@ == cpu_brands_b[i]@,
    ensures
        shown_info(
            collected(
                os_name,
                os_version,
                kernel_version,
                cpu_brands_a,
                physical_core_count,
                total_memory,
                hostname,
            ),
        ) == shown_info(
            collected(
                os_name,
                os_version,
                kernel_version,
                cpu_brands_b,
                physical_core_count,
                total_memory,
                hostname,
            ),
        ),
{
    if cpu_brands_a.len() > 0 {
        assert(cpu_brands_a[0]@ == cpu_brands_b[0]@);
    }
}

} // verus!
