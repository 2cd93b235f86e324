//! Live content hot-reload: recompile shaders while people are playing, with no client
//! restart.
//!
//! A freshly fetched pack is staged into the registry; at a safe frame boundary
//! [`HotReload::apply`] swaps it in and rebuilds the pipeline of every surface shader it
//! holds. Because live game *state* references content by stable id, swapping a definition
//! changes behaviour and look without disturbing identity or progress.

use crate::client::render::{rebuilt, Pipelines};
use crate::content::digest::pack_hash;
use crate::content::error::ContentError;
use crate::content::material::ShaderDef;
use crate::content::pack::ContentPack;
use crate::content::registry::{stale, ContentRegistry};
use vstd::prelude::*;

verus! {

/// Drives content swaps and tracks the last applied epoch.
#[derive(Debug, Clone, Copy, PartialEq, Eq, Structural)]
pub struct HotReload {
    /// The content epoch the GPU resources currently reflect.
    pub applied_epoch: u64,
}

impl Default for HotReload {
    fn default() -> (r: Self)
        ensures
            r.applied_epoch == 0,
    {
        HotReload { applied_epoch: 0 }
    }
}

impl HotReload {
    pub fn new() -> (r: Self)
        ensures
            r.applied_epoch == 0,
    {
        HotReload { applied_epoch: 0 }
    }

    /// Stage a freshly-fetched pack for swap-at-boundary. `encoded` is its encoding.
    pub fn stage(
        &self,
        registry: &mut ContentRegistry,
        epoch: u64,
        pack: ContentPack,
        encoded: &[u8],
    ) -> (r: Result<(), ContentError>)
        requires
            old(registry).well_formed(),
        ensures
            final(registry).well_formed(),
            final(registry).at_epoch() == old(registry).at_epoch(),
            final(registry).at_hash() == old(registry).at_hash(),
            final(registry).active() == old(registry).active(),
            if epoch <= old(registry).at_epoch() {
                &&& r matches Err(ContentError::Invalid(text)) && text@ == stale(
                    epoch,
                    old(registry).at_epoch(),
                )
                &&& final(registry).staged() == old(registry).staged()
            } else {
                match pack.problem() {
                    Some(why) => {
                        &&& r matches Err(ContentError::Invalid(text)) && text@ == why
                        &&& final(registry).staged() == old(registry).staged()
                    },
                    None => {
                        &&& r == Ok::<(), ContentError>(())
                        &&& final(registry).staged() == Some((epoch, pack_hash(encoded@), pack))
                    },
                }
            },
    {
        registry.stage(epoch, pack, encoded)
    }

    /// Apply any staged content: swap the registry, then rebuild every surface pipeline from
    /// the new pack with `build`. A shader that does not compile keeps the previous or default
    /// pipeline. Call at a frame boundary (never mid-pass). A no-op if nothing is staged.
    /// Returns the new epoch if a swap occurred.
    ///
    /// All shaders of the new pack are rebuilt rather than a precise difference: a swap is
    /// rare, the work is a handful of compiles, and "rebuild everything" is the robust
    /// choice.
    pub fn apply<P, B: Fn(&ShaderDef) -> Option<P>>(
        &mut self,
        registry: &mut ContentRegistry,
        pipelines: &mut Pipelines<P>,
        build: &B,
    ) -> (r: Option<u64>)
        requires
            old(registry).well_formed(),
            old(pipelines).well_formed(),
            forall|shader: &ShaderDef| call_requires(*build, (shader,)),
        ensures
            final(registry).well_formed(),
            final(registry).staged() is None,
            final(pipelines).well_formed(),
            final(pipelines).default_pipeline == old(pipelines).default_pipeline,
            match old(registry).staged() {
                Some((epoch, hash, pack)) => {
                    &&& r == Some(epoch)
                    &&& final(self).applied_epoch == epoch
                    &&& final(registry).at_epoch() == epoch
                    &&& final(registry).at_hash() == hash
                    &&& final(registry).active() == pack
                    &&& rebuilt(
                        *build,
                        pack.shaders@,
                        old(pipelines).look(),
                        final(pipelines).look(),
                    )
                },
                None => {
                    &&& r is None
                    &&& *final(self) == *old(self)
                    &&& final(registry).at_epoch() == old(registry).at_epoch()
                    &&& final(registry).at_hash() == old(registry).at_hash()
                    &&& final(registry).active() == old(registry).active()
                    &&& *final(pipelines) == *old(pipelines)
                },
            },
    {
        match registry.apply_pending() {
            Some(epoch) => {
                pipelines.rebuild(&registry.pack().shaders, build);
                self.applied_epoch = epoch;
                Some(epoch)
            },
            None => None,
        }
    }
}

/// What was staged is what a swap applies: the pack, its epoch, and one rebuild; a second swap does
/// nothing.
pub proof fn a_staged_pack_is_applied<P, B: Fn(&ShaderDef) -> Option<P>>(
    reload: &HotReload,
    staging: &mut ContentRegistry,
    epoch: u64,
    pack: ContentPack,
    encoded: &[u8],
    swap: &mut HotReload,
    registry: &mut ContentRegistry,
    pipelines: &mut Pipelines<P>,
    build: &B,
    swapped: Option<u64>,
    again: &mut HotReload,
    registry_again: &mut ContentRegistry,
    pipelines_again: &mut Pipelines<P>,
    reswapped: Option<u64>,
)
    requires
        call_ensures(HotReload::stage, (reload, staging, epoch, pack, encoded), Ok(())),
        *old(registry) == *final(staging),
        call_ensures(HotReload::apply::<P, B>, (swap, registry, pipelines, build), swapped),
        *old(again) == *final(swap),
        *old(registry_again) == *final(registry),
        *old(pipelines_again) == *final(pipelines),
        call_ensures(
            HotReload::apply::<P, B>,
            (again, registry_again, pipelines_again, build),
            reswapped,
        ),
    ensures
        epoch > old(staging).epoch,
        pack.problem() is None,
        final(staging).active() == old(staging).active(),
        swapped == Some(epoch),
        final(swap).applied_epoch == epoch,
        final(registry).active() == pack,
        final(registry).epoch == epoch,
        final(registry).active_hash@ == pack_hash(encoded@),
        final(pipelines).default_pipeline == old(pipelines).default_pipeline,
        reswapped is None,
        *final(again) == *final(swap),
        *final(pipelines_again) == *final(pipelines),
        final(registry_again).active() == pack,
{
}

} // verus!
