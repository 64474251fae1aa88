//! A whole Docker cleanup. What to do to each listed container, image,
//! volume and network is decided here (`should_stop_container`,
//! `should_remove_image`, `is_default_network`); the caller runs the
//! `docker` commands, reports what became of each item, and the result of
//! the cleanup is computed here from those reports.
use vstd::prelude::*;
use crate::text::{push_str, to_owned};
use crate::docker::{
    error_views, failure_message, is_default_network, should_remove_image, should_stop_container, CleanupOptions,
    ContainerInfo, ContainerStatus, DockerCleanupResult, ImageInfo, NetworkInfo, VolumeInfo,
};

verus! {

/// What became of a listed container.
#[derive(Debug, Clone)]
pub enum ContainerOutcome {
    /// Stopping it failed with this error, so it was not removed.
    StopFailed(String),
    /// Removing it failed with this error.
    RemoveFailed(String),
    /// It was removed.
    Removed,
}

/// What became of a listed image, volume or network.
#[derive(Debug, Clone)]
pub enum RemovalOutcome {
    /// It was not to be removed and was left alone.
    Skipped,
    /// Removing it failed with this error.
    Failed(String),
    /// It was removed.
    Removed,
}

/// The next thing to do with a listed container.
#[derive(Debug, Clone)]
pub enum ContainerStep {
    /// Stop it (`docker stop`).
    Stop,
    /// Remove it (`docker rm`, with `-f` when the options force it).
    Remove,
    /// Nothing more: this is what became of it.
    Done(ContainerOutcome),
}

/// What to do next with a container, from what was done to it so far: a
/// running container is stopped first when the options ask for it; a
/// failed stop ends there, without removal; then it is removed, and the
/// removal's outcome is what became of it.
pub fn container_step(
    options: &CleanupOptions,
    container: &ContainerInfo,
    stopped: &Option<Result<(), String>>,
    removed: &Option<Result<(), String>>,
) -> (s: ContainerStep)
    ensures
        match *removed {
            Some(Ok(_)) => s matches ContainerStep::Done(ContainerOutcome::Removed),
            Some(Err(e)) => s matches ContainerStep::Done(ContainerOutcome::RemoveFailed(m)) && m@ == e@,
            None => if options.stop_running && container.status == ContainerStatus::Running {
                match *stopped {
                    None => s matches ContainerStep::Stop,
                    Some(Err(e)) => s matches ContainerStep::Done(ContainerOutcome::StopFailed(m)) && m@ == e@,
                    Some(Ok(_)) => s matches ContainerStep::Remove,
                }
            } else {
                s matches ContainerStep::Remove
            },
        },
{
    match removed {
        Some(Ok(())) => ContainerStep::Done(ContainerOutcome::Removed),
        Some(Err(e)) => ContainerStep::Done(ContainerOutcome::RemoveFailed(to_owned(e.as_str()))),
        None => {
            if should_stop_container(options, container) {
                match stopped {
                    None => ContainerStep::Stop,
                    Some(Err(e)) => ContainerStep::Done(ContainerOutcome::StopFailed(to_owned(e.as_str()))),
                    Some(Ok(())) => ContainerStep::Remove,
                }
            } else {
                ContainerStep::Remove
            }
        },
    }
}

/// A size that may be unknown, as a number of bytes.
pub open spec fn opt_size(s: Option<u64>) -> nat {
    match s {
        Some(x) => x as nat,
        None => 0,
    }
}

/// Containers removed among the first `n` reports.
pub open spec fn containers_removed_upto(os: Seq<ContainerOutcome>, n: int) -> nat
    decreases n,
{
    if n <= 0 {
        0
    } else {
        containers_removed_upto(os, n - 1) + (if os[n - 1] is Removed { 1nat } else { 0nat })
    }
}

/// Space held by the containers removed among the first `n` reports.
pub open spec fn containers_space_upto(cs: Seq<ContainerInfo>, os: Seq<ContainerOutcome>, n: int) -> nat
    decreases n,
{
    if n <= 0 {
        0
    } else {
        containers_space_upto(cs, os, n - 1) + (if os[n - 1] is Removed {
            opt_size(cs[n - 1].size_rw) + opt_size(cs[n - 1].size_root_fs)
        } else {
            0nat
        })
    }
}

/// The error a container's report records.
pub open spec fn container_error(c: ContainerInfo, o: ContainerOutcome) -> Seq<Seq<char>> {
    match o {
        ContainerOutcome::StopFailed(e) => seq!["Failed to stop container "@ + c.name@ + ": "@ + e@],
        ContainerOutcome::RemoveFailed(e) => seq!["Failed to remove container "@ + c.name@ + ": "@ + e@],
        ContainerOutcome::Removed => Seq::empty(),
    }
}

/// Errors recorded by the first `n` container reports, in order.
pub open spec fn container_errors_upto(cs: Seq<ContainerInfo>, os: Seq<ContainerOutcome>, n: int) -> Seq<Seq<char>>
    decreases n,
{
    if n <= 0 {
        Seq::empty()
    } else {
        container_errors_upto(cs, os, n - 1) + container_error(cs[n - 1], os[n - 1])
    }
}

/// Items removed among the first `n` reports, counting only the selected.
pub open spec fn removed_upto(sel: spec_fn(int) -> bool, os: Seq<RemovalOutcome>, n: int) -> nat
    decreases n,
{
    if n <= 0 {
        0
    } else {
        removed_upto(sel, os, n - 1) + (if sel(n - 1) && os[n - 1] is Removed { 1nat } else { 0nat })
    }
}

/// The error one report of a selected item records.
pub open spec fn removal_error(selected: bool, what: Seq<char>, label: Seq<char>, o: RemovalOutcome) -> Seq<
    Seq<char>,
> {
    match o {
        RemovalOutcome::Failed(e) => if selected {
            seq!["Failed to remove "@ + what + " "@ + label + ": "@ + e@]
        } else {
            Seq::empty()
        },
        _ => Seq::empty(),
    }
}

/// Errors recorded by the first `n` reports, in order.
pub open spec fn removal_errors_upto(
    sel: spec_fn(int) -> bool,
    what: Seq<char>,
    label: spec_fn(int) -> Seq<char>,
    os: Seq<RemovalOutcome>,
    n: int,
) -> Seq<Seq<char>>
    decreases n,
{
    if n <= 0 {
        Seq::empty()
    } else {
        removal_errors_upto(sel, what, label, os, n - 1) + removal_error(sel(n - 1), what, label(n - 1), os[n - 1])
    }
}

/// The images a cleanup removes: all, or only those not dangling.
pub open spec fn image_selected(options: CleanupOptions, images: Seq<ImageInfo>) -> spec_fn(int) -> bool {
    |i: int| options.remove_dangling || !images[i].dangling
}

/// Images are named by their repository in errors.
pub open spec fn image_labels(images: Seq<ImageInfo>) -> spec_fn(int) -> Seq<char> {
    |i: int| images[i].repository@
}

/// Space held by the selected images removed among the first `n` reports.
pub open spec fn images_space_upto(images: Seq<ImageInfo>, sel: spec_fn(int) -> bool, os: Seq<RemovalOutcome>, n: int) -> nat
    decreases n,
{
    if n <= 0 {
        0
    } else {
        images_space_upto(images, sel, os, n - 1) + (if sel(n - 1) && os[n - 1] is Removed {
            images[n - 1].size as nat
        } else {
            0nat
        })
    }
}

/// Every volume is removed.
pub open spec fn every() -> spec_fn(int) -> bool {
    |i: int| true
}

/// Volumes are named by their name in errors.
pub open spec fn volume_labels(volumes: Seq<VolumeInfo>) -> spec_fn(int) -> Seq<char> {
    |i: int| volumes[i].name@
}

/// The networks a cleanup removes: all but Docker's own.
pub open spec fn network_selected(networks: Seq<NetworkInfo>) -> spec_fn(int) -> bool {
    |i: int| !(networks[i].name@ == "bridge"@ || networks[i].name@ == "host"@ || networks[i].name@ == "none"@)
}

/// Networks are named by their name in errors.
pub open spec fn network_labels(networks: Seq<NetworkInfo>) -> spec_fn(int) -> Seq<char> {
    |i: int| networks[i].name@
}

proof fn lemma_containers_grow(cs: Seq<ContainerInfo>, os: Seq<ContainerOutcome>, i: int, n: int)
    requires
        0 <= i <= n,
    ensures
        containers_space_upto(cs, os, i) <= containers_space_upto(cs, os, n),
        containers_removed_upto(os, i) <= i,
    decreases n - i, n,
{
    if i < n {
        lemma_containers_grow(cs, os, i, n - 1);
    } else if i > 0 {
        lemma_containers_grow(cs, os, i - 1, i - 1);
    }
}

proof fn lemma_removals_grow(images: Seq<ImageInfo>, sel: spec_fn(int) -> bool, os: Seq<RemovalOutcome>, i: int, n: int)
    requires
        0 <= i <= n,
    ensures
        images_space_upto(images, sel, os, i) <= images_space_upto(images, sel, os, n),
        removed_upto(sel, os, i) <= i,
    decreases n - i, n,
{
    if i < n {
        lemma_removals_grow(images, sel, os, i, n - 1);
    } else if i > 0 {
        lemma_removals_grow(images, sel, os, i - 1, i - 1);
    }
}

fn record_containers(r: &mut DockerCleanupResult, containers: &[ContainerInfo], outs: &[ContainerOutcome])
    requires
        containers@.len() == outs@.len(),
        old(r).containers_removed + outs@.len() <= u32::MAX,
        old(r).space_freed + containers_space_upto(containers@, outs@, outs@.len() as int) <= u64::MAX,
    ensures
        final(r).containers_removed == old(r).containers_removed + containers_removed_upto(outs@, outs@.len() as int),
        final(r).space_freed == old(r).space_freed + containers_space_upto(containers@, outs@, outs@.len() as int),
        error_views(final(r).errors@) == error_views(old(r).errors@) + container_errors_upto(
            containers@,
            outs@,
            outs@.len() as int,
        ),
        final(r).images_removed == old(r).images_removed,
        final(r).volumes_removed == old(r).volumes_removed,
        final(r).networks_removed == old(r).networks_removed,
        final(r).build_cache_cleaned == old(r).build_cache_cleaned,
        final(r).duration_ms == old(r).duration_ms,
{
    let ghost r0 = *r;
    let n = outs.len();
    let mut i: usize = 0;
    while i < n
        invariant
            n == outs@.len(),
            n == containers@.len(),
            0 <= i <= n,
            r0.containers_removed + n <= u32::MAX,
            r0.space_freed + containers_space_upto(containers@, outs@, n as int) <= u64::MAX,
            r.containers_removed == r0.containers_removed + containers_removed_upto(outs@, i as int),
            r.space_freed == r0.space_freed + containers_space_upto(containers@, outs@, i as int),
            error_views(r.errors@) == error_views(r0.errors@) + container_errors_upto(containers@, outs@, i as int),
            r.images_removed == r0.images_removed,
            r.volumes_removed == r0.volumes_removed,
            r.networks_removed == r0.networks_removed,
            r.build_cache_cleaned == r0.build_cache_cleaned,
            r.duration_ms == r0.duration_ms,
        decreases n - i,
    {
        proof {
            lemma_containers_grow(containers@, outs@, i as int + 1, n as int);
            lemma_containers_grow(containers@, outs@, i as int, i as int);
        }
        let ghost before = error_views(r.errors@);
        let c = &containers[i];
        match &outs[i] {
            ContainerOutcome::StopFailed(e) => {
                let m = failure_message("Failed to stop container ", c.name.as_str(), e.as_str());
                r.record_error(m);
            },
            ContainerOutcome::RemoveFailed(e) => {
                let m = failure_message("Failed to remove container ", c.name.as_str(), e.as_str());
                r.record_error(m);
            },
            ContainerOutcome::Removed => {
                r.record_container_removed(c.size_rw, c.size_root_fs);
            },
        }
        assert(error_views(r.errors@) =~= before + container_error(containers@[i as int], outs@[i as int]));
        i += 1;
    }
}

fn record_images(
    r: &mut DockerCleanupResult,
    options: &CleanupOptions,
    images: &[ImageInfo],
    outs: &[RemovalOutcome],
)
    requires
        images@.len() == outs@.len(),
        old(r).images_removed + outs@.len() <= u32::MAX,
        old(r).space_freed + images_space_upto(images@, image_selected(*options, images@), outs@, outs@.len() as int)
            <= u64::MAX,
    ensures
        final(r).images_removed == old(r).images_removed + removed_upto(
            image_selected(*options, images@),
            outs@,
            outs@.len() as int,
        ),
        final(r).space_freed == old(r).space_freed + images_space_upto(
            images@,
            image_selected(*options, images@),
            outs@,
            outs@.len() as int,
        ),
        error_views(final(r).errors@) == error_views(old(r).errors@) + removal_errors_upto(
            image_selected(*options, images@),
            "image"@,
            image_labels(images@),
            outs@,
            outs@.len() as int,
        ),
        final(r).containers_removed == old(r).containers_removed,
        final(r).volumes_removed == old(r).volumes_removed,
        final(r).networks_removed == old(r).networks_removed,
        final(r).build_cache_cleaned == old(r).build_cache_cleaned,
        final(r).duration_ms == old(r).duration_ms,
{
    let ghost r0 = *r;
    let ghost sel = image_selected(*options, images@);
    let ghost lab = image_labels(images@);
    let n = outs.len();
    let mut i: usize = 0;
    while i < n
        invariant
            n == outs@.len(),
            n == images@.len(),
            0 <= i <= n,
            sel == image_selected(*options, images@),
            lab == image_labels(images@),
            r0.images_removed + n <= u32::MAX,
            r0.space_freed + images_space_upto(images@, sel, outs@, n as int) <= u64::MAX,
            r.images_removed == r0.images_removed + removed_upto(sel, outs@, i as int),
            r.space_freed == r0.space_freed + images_space_upto(images@, sel, outs@, i as int),
            error_views(r.errors@) == error_views(r0.errors@) + removal_errors_upto(sel, "image"@, lab, outs@, i as int),
            r.containers_removed == r0.containers_removed,
            r.volumes_removed == r0.volumes_removed,
            r.networks_removed == r0.networks_removed,
            r.build_cache_cleaned == r0.build_cache_cleaned,
            r.duration_ms == r0.duration_ms,
        decreases n - i,
    {
        proof {
            lemma_removals_grow(images@, sel, outs@, i as int + 1, n as int);
            lemma_removals_grow(images@, sel, outs@, i as int, i as int);
        }
        let ghost before = error_views(r.errors@);
        let im = &images[i];
        let selected = should_remove_image(options, im.dangling);
        assert(selected == sel(i as int));
        if selected {
            match &outs[i] {
                RemovalOutcome::Failed(e) => {
                    let m = failure_message("Failed to remove image ", im.repository.as_str(), e.as_str());
                    proof {
                        reveal_strlit("Failed to remove image ");
                        reveal_strlit("Failed to remove ");
                        reveal_strlit("image");
                        reveal_strlit(" ");
                        assert("Failed to remove image "@ =~= "Failed to remove "@ + "image"@ + " "@);
                    }
                    r.record_error(m);
                },
                RemovalOutcome::Removed => {
                    r.record_image_removed(im.size);
                },
                RemovalOutcome::Skipped => {},
            }
        }
        assert(error_views(r.errors@) =~= before + removal_error(sel(i as int), "image"@, lab(i as int), outs@[i as int]));
        i += 1;
    }
}

fn record_volumes(r: &mut DockerCleanupResult, volumes: &[VolumeInfo], outs: &[RemovalOutcome])
    requires
        volumes@.len() == outs@.len(),
        old(r).volumes_removed + outs@.len() <= u32::MAX,
    ensures
        final(r).volumes_removed == old(r).volumes_removed + removed_upto(every(), outs@, outs@.len() as int),
        error_views(final(r).errors@) == error_views(old(r).errors@) + removal_errors_upto(
            every(),
            "volume"@,
            volume_labels(volumes@),
            outs@,
            outs@.len() as int,
        ),
        final(r).containers_removed == old(r).containers_removed,
        final(r).images_removed == old(r).images_removed,
        final(r).networks_removed == old(r).networks_removed,
        final(r).space_freed == old(r).space_freed,
        final(r).build_cache_cleaned == old(r).build_cache_cleaned,
        final(r).duration_ms == old(r).duration_ms,
{
    let ghost r0 = *r;
    let ghost lab = volume_labels(volumes@);
    let n = outs.len();
    let mut i: usize = 0;
    while i < n
        invariant
            n == outs@.len(),
            n == volumes@.len(),
            0 <= i <= n,
            lab == volume_labels(volumes@),
            r0.volumes_removed + n <= u32::MAX,
            r.volumes_removed == r0.volumes_removed + removed_upto(every(), outs@, i as int),
            error_views(r.errors@) == error_views(r0.errors@) + removal_errors_upto(every(), "volume"@, lab, outs@, i as int),
            r.containers_removed == r0.containers_removed,
            r.images_removed == r0.images_removed,
            r.networks_removed == r0.networks_removed,
            r.space_freed == r0.space_freed,
            r.build_cache_cleaned == r0.build_cache_cleaned,
            r.duration_ms == r0.duration_ms,
        decreases n - i,
    {
        proof {
            lemma_removals_grow(Seq::empty(), every(), outs@, i as int, i as int);
        }
        let ghost before = error_views(r.errors@);
        let v = &volumes[i];
        match &outs[i] {
            RemovalOutcome::Failed(e) => {
                let m = failure_message("Failed to remove volume ", v.name.as_str(), e.as_str());
                proof {
                    reveal_strlit("Failed to remove volume ");
                    reveal_strlit("Failed to remove ");
                    reveal_strlit("volume");
                    reveal_strlit(" ");
                    assert("Failed to remove volume "@ =~= "Failed to remove "@ + "volume"@ + " "@);
                }
                r.record_error(m);
            },
            RemovalOutcome::Removed => {
                r.record_volume_removed();
            },
            RemovalOutcome::Skipped => {},
        }
        assert(error_views(r.errors@) =~= before + removal_error(every()(i as int), "volume"@, lab(i as int), outs@[i as int]));
        i += 1;
    }
}

fn record_networks(r: &mut DockerCleanupResult, networks: &[NetworkInfo], outs: &[RemovalOutcome])
    requires
        networks@.len() == outs@.len(),
        old(r).networks_removed + outs@.len() <= u32::MAX,
    ensures
        final(r).networks_removed == old(r).networks_removed + removed_upto(
            network_selected(networks@),
            outs@,
            outs@.len() as int,
        ),
        error_views(final(r).errors@) == error_views(old(r).errors@) + removal_errors_upto(
            network_selected(networks@),
            "network"@,
            network_labels(networks@),
            outs@,
            outs@.len() as int,
        ),
        final(r).containers_removed == old(r).containers_removed,
        final(r).images_removed == old(r).images_removed,
        final(r).volumes_removed == old(r).volumes_removed,
        final(r).space_freed == old(r).space_freed,
        final(r).build_cache_cleaned == old(r).build_cache_cleaned,
        final(r).duration_ms == old(r).duration_ms,
{
    let ghost r0 = *r;
    let ghost sel = network_selected(networks@);
    let ghost lab = network_labels(networks@);
    let n = outs.len();
    let mut i: usize = 0;
    while i < n
        invariant
            n == outs@.len(),
            n == networks@.len(),
            0 <= i <= n,
            sel == network_selected(networks@),
            lab == network_labels(networks@),
            r0.networks_removed + n <= u32::MAX,
            r.networks_removed == r0.networks_removed + removed_upto(sel, outs@, i as int),
            error_views(r.errors@) == error_views(r0.errors@) + removal_errors_upto(sel, "network"@, lab, outs@, i as int),
            r.containers_removed == r0.containers_removed,
            r.images_removed == r0.images_removed,
            r.volumes_removed == r0.volumes_removed,
            r.space_freed == r0.space_freed,
            r.build_cache_cleaned == r0.build_cache_cleaned,
            r.duration_ms == r0.duration_ms,
        decreases n - i,
    {
        proof {
            lemma_removals_grow(Seq::empty(), sel, outs@, i as int, i as int);
        }
        let ghost before = error_views(r.errors@);
        let nw = &networks[i];
        let selected = !is_default_network(nw.name.as_str());
        assert(selected == sel(i as int));
        if selected {
            match &outs[i] {
                RemovalOutcome::Failed(e) => {
                    let m = failure_message("Failed to remove network ", nw.name.as_str(), e.as_str());
                    proof {
                        reveal_strlit("Failed to remove network ");
                        reveal_strlit("Failed to remove ");
                        reveal_strlit("network");
                        reveal_strlit(" ");
                        assert("Failed to remove network "@ =~= "Failed to remove "@ + "network"@ + " "@);
                    }
                    r.record_error(m);
                },
                RemovalOutcome::Removed => {
                    r.record_network_removed();
                },
                RemovalOutcome::Skipped => {},
            }
        }
        assert(error_views(r.errors@) =~= before + removal_error(sel(i as int), "network"@, lab(i as int), outs@[i as int]));
        i += 1;
    }
}

/// The error recorded for the build cache: when it was to be cleaned and
/// `docker builder prune` failed.
pub open spec fn build_cache_error(clean: bool, outcome: Option<Result<(), String>>) -> Seq<Seq<char>> {
    match outcome {
        Some(Err(e)) => if clean { seq!["Failed to clean build cache: "@ + e@] } else { Seq::empty() },
        _ => Seq::empty(),
    }
}

/// The space a cleanup frees: that of the removed containers and images.
pub open spec fn docker_space(
    options: CleanupOptions,
    containers: Seq<ContainerInfo>,
    container_outcomes: Seq<ContainerOutcome>,
    images: Seq<ImageInfo>,
    image_outcomes: Seq<RemovalOutcome>,
) -> nat {
    (if options.remove_containers {
        containers_space_upto(containers, container_outcomes, container_outcomes.len() as int)
    } else {
        0nat
    }) + (if options.remove_images {
        images_space_upto(images, image_selected(options, images), image_outcomes, image_outcomes.len() as int)
    } else {
        0nat
    })
}

/// The result of a Docker cleanup, from what became of each listed item.
/// Containers, images, volumes and networks count only when the options
/// ask for their removal; each outcome list runs alongside its listing. A
/// container whose stop failed records that error and is not counted;
/// images that stay (dangling ones when those are kept) and Docker's own
/// networks are not counted whatever is reported for them. `build_cache`
/// is what `docker builder prune` gave, if it was run.
pub fn cleanup_result(
    options: &CleanupOptions,
    containers: &[ContainerInfo],
    container_outcomes: &[ContainerOutcome],
    images: &[ImageInfo],
    image_outcomes: &[RemovalOutcome],
    volumes: &[VolumeInfo],
    volume_outcomes: &[RemovalOutcome],
    networks: &[NetworkInfo],
    network_outcomes: &[RemovalOutcome],
    build_cache: &Option<Result<(), String>>,
    duration_ms: u64,
) -> (r: DockerCleanupResult)
    requires
        containers@.len() == container_outcomes@.len(),
        images@.len() == image_outcomes@.len(),
        volumes@.len() == volume_outcomes@.len(),
        networks@.len() == network_outcomes@.len(),
        containers@.len() <= u32::MAX,
        images@.len() <= u32::MAX,
        volumes@.len() <= u32::MAX,
        networks@.len() <= u32::MAX,
        docker_space(*options, containers@, container_outcomes@, images@, image_outcomes@) <= u64::MAX,
    ensures
        r.containers_removed == (if options.remove_containers {
            containers_removed_upto(container_outcomes@, container_outcomes@.len() as int)
        } else {
            0nat
        }),
        r.images_removed == (if options.remove_images {
            removed_upto(image_selected(*options, images@), image_outcomes@, image_outcomes@.len() as int)
        } else {
            0nat
        }),
        r.volumes_removed == (if options.remove_volumes {
            removed_upto(every(), volume_outcomes@, volume_outcomes@.len() as int)
        } else {
            0nat
        }),
        r.networks_removed == (if options.remove_networks {
            removed_upto(network_selected(networks@), network_outcomes@, network_outcomes@.len() as int)
        } else {
            0nat
        }),
        r.build_cache_cleaned == (options.clean_build_cache && *build_cache matches Some(Ok(_))),
        r.space_freed == docker_space(*options, containers@, container_outcomes@, images@, image_outcomes@),
        error_views(r.errors@) == (if options.remove_containers {
            container_errors_upto(containers@, container_outcomes@, container_outcomes@.len() as int)
        } else {
            Seq::empty()
        }) + (if options.remove_images {
            removal_errors_upto(
                image_selected(*options, images@),
                "image"@,
                image_labels(images@),
                image_outcomes@,
                image_outcomes@.len() as int,
            )
        } else {
            Seq::empty()
        }) + (if options.remove_volumes {
            removal_errors_upto(every(), "volume"@, volume_labels(volumes@), volume_outcomes@, volume_outcomes@.len() as int)
        } else {
            Seq::empty()
        }) + (if options.remove_networks {
            removal_errors_upto(
                network_selected(networks@),
                "network"@,
                network_labels(networks@),
                network_outcomes@,
                network_outcomes@.len() as int,
            )
        } else {
            Seq::empty()
        }) + build_cache_error(options.clean_build_cache, *build_cache),
        r.duration_ms == duration_ms,
{
    let mut r = DockerCleanupResult::new();
    let ghost e0 = error_views(r.errors@);
    assert(e0 =~= Seq::<Seq<char>>::empty());
    if options.remove_containers {
        record_containers(&mut r, containers, container_outcomes);
    }
    let ghost e1 = error_views(r.errors@);
    let ghost a: Seq<Seq<char>> = if options.remove_containers {
        container_errors_upto(containers@, container_outcomes@, container_outcomes@.len() as int)
    } else {
        Seq::empty()
    };
    assert(e1 =~= a);
    if options.remove_images {
        record_images(&mut r, options, images, image_outcomes);
    }
    let ghost e2 = error_views(r.errors@);
    let ghost b: Seq<Seq<char>> = if options.remove_images {
        removal_errors_upto(
            image_selected(*options, images@),
            "image"@,
            image_labels(images@),
            image_outcomes@,
            image_outcomes@.len() as int,
        )
    } else {
        Seq::empty()
    };
    assert(e2 =~= a + b);
    if options.remove_volumes {
        record_volumes(&mut r, volumes, volume_outcomes);
    }
    let ghost e3 = error_views(r.errors@);
    let ghost c: Seq<Seq<char>> = if options.remove_volumes {
        removal_errors_upto(every(), "volume"@, volume_labels(volumes@), volume_outcomes@, volume_outcomes@.len() as int)
    } else {
        Seq::empty()
    };
    assert(e3 =~= a + b + c);
    if options.remove_networks {
        record_networks(&mut r, networks, network_outcomes);
    }
    let ghost e4 = error_views(r.errors@);
    let ghost d: Seq<Seq<char>> = if options.remove_networks {
        removal_errors_upto(
            network_selected(networks@),
            "network"@,
            network_labels(networks@),
            network_outcomes@,
            network_outcomes@.len() as int,
        )
    } else {
        Seq::empty()
    };
    assert(e4 =~= a + b + c + d);
    if options.clean_build_cache {
        match build_cache {
            Some(Ok(())) => r.record_build_cache_cleaned(),
            Some(Err(e)) => {
                let mut m = to_owned("Failed to clean build cache: ");
                push_str(&mut m, e.as_str());
                r.record_error(m);
            },
            None => {},
        }
    }
    proof {
        assert(error_views(r.errors@) =~= e4 + build_cache_error(options.clean_build_cache, *build_cache));
    }
    r.duration_ms = duration_ms;
    r
}

} // verus!
