//! The graphics bootstrap state machine.
//!
//! `VulkanApp` models the lifecycle of the instance and the diagnostic
//! messenger: which handles are live, whether debug instrumentation was
//! requested, and whether teardown already ran. Every decision of the
//! bootstrap protocol is made here and verified; the native driver calls
//! themselves are performed by an unverified shell, which reports each
//! call's outcome back as a plain event.

use vstd::prelude::*;

use crate::error::VkError;
use crate::layers::{
    all_layers_present, check_availabilities_validation_layers, required_validation_layers,
    spec_required_validation_layers,
};
use crate::support::VulkanSupport;

verus! {

/// Target API version requested in the application record
/// (variant 0, major 1, minor 3, patch 0).
pub const API_VERSION_1_3: u32 = (1u32 << 22) | (3u32 << 12);

/// Name of the diagnostics extension appended to the extension list in
/// debug mode.
pub open spec fn spec_debug_utils_extension() -> Seq<char> {
    "VK_EXT_debug_utils"@
}

/// Executable copy of the diagnostics extension name.
pub fn debug_utils_extension() -> (r: String)
    ensures
        r@ == spec_debug_utils_extension(),
{
    "VK_EXT_debug_utils".to_owned()
}

/// Static application/engine identification record handed to instance
/// creation: fixed name, zero versions, fixed target API version.
pub struct ApplicationRecord {
    pub application_name: String,
    pub application_version: u32,
    pub engine_version: u32,
    pub api_version: u32,
}

/// The identification record the bootstrap always builds.
pub open spec fn spec_application_record_valid(a: ApplicationRecord) -> bool {
    &&& a.application_name@ == "s"@
    &&& a.application_version == 0
    &&& a.engine_version == 0
    &&& a.api_version == API_VERSION_1_3
}

/// Which message severities and categories the diagnostic messenger asks
/// the driver to report.
pub struct DebugMessengerConfig {
    pub severity_verbose: bool,
    pub severity_info: bool,
    pub severity_warning: bool,
    pub severity_error: bool,
    pub type_general: bool,
    pub type_validation: bool,
    pub type_performance: bool,
}

impl Default for DebugMessengerConfig {
    /// An empty configuration: no severity, no category selected.
    fn default() -> (r: Self)
        ensures
            r == (DebugMessengerConfig {
                severity_verbose: false,
                severity_info: false,
                severity_warning: false,
                severity_error: false,
                type_general: false,
                type_validation: false,
                type_performance: false,
            }),
    {
        DebugMessengerConfig {
            severity_verbose: false,
            severity_info: false,
            severity_warning: false,
            severity_error: false,
            type_general: false,
            type_validation: false,
            type_performance: false,
        }
    }
}

/// The configuration the bootstrap always uses: verbose, warning and error
/// severities (not info), and all three message categories.
pub open spec fn spec_debug_messenger_config() -> DebugMessengerConfig {
    DebugMessengerConfig {
        severity_verbose: true,
        severity_info: false,
        severity_warning: true,
        severity_error: true,
        type_general: true,
        type_validation: true,
        type_performance: true,
    }
}

/// Everything instance creation needs: the identification record, the final
/// extension list, the layer list, and — in debug mode — the messenger
/// configuration chained into the creation descriptor, so that issues during
/// instance creation itself are already reported.
pub struct InstanceRequest {
    pub app_info: ApplicationRecord,
    pub extensions: Vec<String>,
    pub layers: Vec<String>,
    pub chain_debug_messenger: Option<DebugMessengerConfig>,
}

/// The final extension list: the provider's list, with the diagnostics
/// extension appended last exactly when debug mode is on.
pub open spec fn spec_final_extensions(provider: Seq<Seq<char>>, debug_mode: bool) -> Seq<Seq<char>> {
    if debug_mode {
        provider.push(spec_debug_utils_extension())
    } else {
        provider
    }
}

/// A well-formed instance request for the given provider list and mode.
pub open spec fn spec_request_valid(req: InstanceRequest, provider: Seq<Seq<char>>, debug_mode: bool) -> bool {
    &&& spec_application_record_valid(req.app_info)
    &&& req.extensions.deep_view() == spec_final_extensions(provider, debug_mode)
    &&& req.layers.deep_view() == if debug_mode {
        spec_required_validation_layers()
    } else {
        Seq::<Seq<char>>::empty()
    }
    &&& req.chain_debug_messenger == if debug_mode {
        Some(spec_debug_messenger_config())
    } else {
        None::<DebugMessengerConfig>
    }
}

/// Builds the final extension list handed to instance creation.
pub fn compose_extension_list(provider_extensions: &Vec<String>, debug_mode: bool) -> (r: Vec<String>)
    ensures
        r.deep_view() == spec_final_extensions(provider_extensions.deep_view(), debug_mode),
{
    let ghost pexts = provider_extensions.deep_view();
    let mut v: Vec<String> = Vec::new();
    let mut i: usize = 0;
    proof {
        assert(v@ =~= provider_extensions@.subrange(0, 0));
    }
    while i < provider_extensions.len()
        invariant
            i <= provider_extensions.len(),
            v@ == provider_extensions@.subrange(0, i as int),
        decreases provider_extensions.len() - i,
    {
        v.push(provider_extensions[i].clone());
        proof {
            assert(v@ =~= provider_extensions@.subrange(0, i as int + 1));
        }
        i += 1;
    }
    proof {
        assert(provider_extensions@.subrange(0, provider_extensions@.len() as int)
            =~= provider_extensions@);
        assert(v.deep_view() =~= pexts);
    }
    if debug_mode {
        v.push(debug_utils_extension());
        proof {
            assert(v.deep_view() =~= pexts.push(spec_debug_utils_extension()));
        }
    }
    v
}

/// How often a name occurs in a list of names.
pub open spec fn count_occurrences(s: Seq<Seq<char>>, x: Seq<char>) -> nat
    decreases s.len(),
{
    if s.len() == 0 {
        0
    } else {
        count_occurrences(s.drop_last(), x) + if s.last() == x {
            1nat
        } else {
            0nat
        }
    }
}

proof fn lemma_count_zero_of_absent(s: Seq<Seq<char>>, x: Seq<char>)
    requires
        !s.contains(x),
    ensures
        count_occurrences(s, x) == 0,
    decreases s.len(),
{
    if s.len() > 0 {
        assert(s.last() != x);
        assert(!s.drop_last().contains(x)) by {
            if s.drop_last().contains(x) {
                let i = choose|i: int| 0 <= i < s.drop_last().len() && s.drop_last()[i] == x;
                assert(s[i] == x);
            }
        }
        lemma_count_zero_of_absent(s.drop_last(), x);
    }
}

/// The diagnostics extension is appended exactly once, and only in debug
/// mode: if the provider's list does not already carry it, the final list
/// holds it once in debug mode and not at all otherwise, and in debug mode
/// the final list is the provider's list with that one name appended last.
pub proof fn lemma_debug_extension_appended_once(provider: Seq<Seq<char>>, debug_mode: bool)
    requires
        !provider.contains(spec_debug_utils_extension()),
    ensures
        count_occurrences(spec_final_extensions(provider, debug_mode), spec_debug_utils_extension())
            == if debug_mode { 1nat } else { 0nat },
        !debug_mode ==> spec_final_extensions(provider, debug_mode) == provider,
        debug_mode ==> spec_final_extensions(provider, debug_mode).drop_last() == provider
            && spec_final_extensions(provider, debug_mode).last() == spec_debug_utils_extension(),
{
    lemma_count_zero_of_absent(provider, spec_debug_utils_extension());
    if debug_mode {
        let fin = provider.push(spec_debug_utils_extension());
        assert(fin.drop_last() =~= provider);
        assert(fin.last() == spec_debug_utils_extension());
    }
}

/// What the driver reported when asked which layers it offers. `NotRequested`
/// means the driver was never asked, which is the case exactly when debug
/// mode is off.
pub enum LayerProbe {
    NotRequested,
    Failed,
    Available(Vec<String>),
}

/// The outcomes the native driver hands back during one `init` attempt:
/// the layer probe, and whether it accepted each creation call. The
/// bootstrap's contracts quantify over every combination.
pub struct DriverEvents {
    pub layer_probe: LayerProbe,
    pub accept_instance: bool,
    pub accept_messenger: bool,
}

/// Which handles a `destroy` call released.
pub struct DestroyPlan {
    pub release_messenger: bool,
    pub release_instance: bool,
}

/// The layer check lets instance creation proceed: either debug mode is off,
/// or the driver reported a layer list covering the whole required set.
pub open spec fn layer_check_passes(debug_mode: bool, probe: LayerProbe) -> bool {
    ||| !debug_mode
    ||| (probe matches LayerProbe::Available(av)
        && all_layers_present(spec_required_validation_layers(), av.deep_view()))
}

/// The graphics bootstrap. Owns (as a verified model) the lifecycle of the
/// instance and the diagnostic messenger; the entry point and the raw
/// handles live in the unverified shell that drives this state machine.
pub struct VulkanApp {
    debug_mode: bool,
    has_instance: bool,
    has_messenger: bool,
    destroyed: bool,
}

impl VulkanApp {
    /// Debug instrumentation was requested at construction.
    pub closed spec fn spec_debug_mode(&self) -> bool {
        self.debug_mode
    }

    /// An instance handle is live.
    pub closed spec fn instance_live(&self) -> bool {
        self.has_instance
    }

    /// A diagnostic messenger handle is live.
    pub closed spec fn messenger_live(&self) -> bool {
        self.has_messenger
    }

    /// Teardown ran; the state is terminal.
    pub closed spec fn spec_destroyed(&self) -> bool {
        self.destroyed
    }

    /// A diagnostic messenger exists only if an instance exists and debug
    /// mode is on.
    pub open spec fn wf(&self) -> bool {
        self.messenger_live() ==> self.instance_live() && self.spec_debug_mode()
    }

    /// Freshly constructed: no handle live, teardown not yet run.
    pub open spec fn is_uninitialized(&self) -> bool {
        &&& !self.instance_live()
        &&& !self.messenger_live()
        &&& !self.spec_destroyed()
    }

    pub fn debug_mode_enabled(&self) -> (r: bool)
        ensures
            r == self.spec_debug_mode(),
    {
        self.debug_mode
    }

    pub fn instance_exists(&self) -> (r: bool)
        ensures
            r == self.instance_live(),
    {
        self.has_instance
    }

    pub fn messenger_exists(&self) -> (r: bool)
        ensures
            r == self.messenger_live(),
    {
        self.has_messenger
    }

    pub fn is_destroyed(&self) -> (r: bool)
        ensures
            r == self.spec_destroyed(),
    {
        self.destroyed
    }

    /// Constructs the bootstrap. `loader_available` reports whether the
    /// native loader entry point could be loaded; without it no bootstrap
    /// is produced.
    pub fn new(debug_mode: bool, loader_available: bool) -> (r: Result<VulkanApp, VkError>)
        ensures
            loader_available ==> (r matches Ok(app) && app.spec_debug_mode() == debug_mode
                && app.is_uninitialized()),
            !loader_available ==> r == Err::<VulkanApp, VkError>(VkError::FailedToInitVulkan),
    {
        if loader_available {
            Ok(VulkanApp { debug_mode, has_instance: false, has_messenger: false, destroyed: false })
        } else {
            Err(VkError::FailedToInitVulkan)
        }
    }

    /// The messenger configuration used both for the messenger itself and
    /// for the chain in the instance-creation descriptor.
    pub fn populate_debug_info(debug_info: &mut DebugMessengerConfig)
        ensures
            *final(debug_info) == spec_debug_messenger_config(),
    {
        debug_info.severity_verbose = true;
        debug_info.severity_info = false;
        debug_info.severity_warning = true;
        debug_info.severity_error = true;
        debug_info.type_general = true;
        debug_info.type_validation = true;
        debug_info.type_performance = true;
    }

    /// Steps 1 to 5 of the bootstrap protocol: check the required validation
    /// layers against what the driver reported (debug mode only), then
    /// compose the identification record, the final extension list, the
    /// layer list and the chained messenger configuration.
    pub fn prepare_instance_request(&self, provider_extensions: &Vec<String>, probe: &LayerProbe) -> (r: Result<
        InstanceRequest,
        VkError,
    >)
        requires
            self.spec_debug_mode() ==> !(probe is NotRequested),
        ensures
            self.spec_debug_mode() && probe is Failed ==> r == Err::<InstanceRequest, VkError>(
                VkError::FailedToCreateValidationLayer,
            ),
            self.spec_debug_mode() && !(probe is Failed) && !layer_check_passes(
                self.spec_debug_mode(),
                *probe,
            ) ==> r == Err::<InstanceRequest, VkError>(VkError::ValidationLayersUnavailable),
            layer_check_passes(self.spec_debug_mode(), *probe) ==> (r matches Ok(req)
                && spec_request_valid(req, provider_extensions.deep_view(), self.spec_debug_mode())),
    {
        if self.debug_mode {
            match probe {
                LayerProbe::NotRequested => {
                    return unreached();
                },
                LayerProbe::Failed => {
                    return Err(VkError::FailedToCreateValidationLayer);
                },
                LayerProbe::Available(av) => {
                    let required = required_validation_layers();
                    if !check_availabilities_validation_layers(&required, av) {
                        return Err(VkError::ValidationLayersUnavailable);
                    }
                },
            }
        }
        let app_info = ApplicationRecord {
            application_name: "s".to_owned(),
            application_version: 0,
            engine_version: 0,
            api_version: API_VERSION_1_3,
        };
        let extensions = compose_extension_list(provider_extensions, self.debug_mode);
        let layers = if self.debug_mode {
            required_validation_layers()
        } else {
            Vec::new()
        };
        let chain_debug_messenger = if self.debug_mode {
            let mut debug_info = DebugMessengerConfig::default();
            Self::populate_debug_info(&mut debug_info);
            Some(debug_info)
        } else {
            None
        };
        proof {
            if !self.debug_mode {
                assert(layers.deep_view() =~= Seq::<Seq<char>>::empty());
            }
        }
        Ok(InstanceRequest { app_info, extensions, layers, chain_debug_messenger })
    }

    /// Step 6's state transition: the driver either produced an instance or
    /// rejected the request; on rejection no partial instance is retained.
    pub fn commit_instance_creation(&mut self, driver_accepted: bool) -> (r: Result<(), VkError>)
        requires
            old(self).wf(),
            old(self).is_uninitialized(),
        ensures
            final(self).spec_debug_mode() == old(self).spec_debug_mode(),
            final(self).wf(),
            driver_accepted ==> r == Ok::<(), VkError>(()) && final(self).instance_live()
                && !final(self).messenger_live() && !final(self).spec_destroyed(),
            !driver_accepted ==> r == Err::<(), VkError>(VkError::FailedToCreateInstance)
                && *final(self) == *old(self),
    {
        if driver_accepted {
            self.has_instance = true;
            Ok(())
        } else {
            Err(VkError::FailedToCreateInstance)
        }
    }

    /// Steps 1 to 6 of the bootstrap protocol against the given provider
    /// list: plan the request, and commit the driver's answer. Failures
    /// leave the state unchanged; in particular, when the layer check fails,
    /// the driver's answer is never consulted and no instance exists after.
    pub fn create_instance(
        &mut self,
        provider_extensions: &Vec<String>,
        probe: &LayerProbe,
        driver_accepts_instance: bool,
    ) -> (r: Result<(), VkError>)
        requires
            old(self).wf(),
            old(self).is_uninitialized(),
            old(self).spec_debug_mode() ==> !(probe is NotRequested),
        ensures
            final(self).spec_debug_mode() == old(self).spec_debug_mode(),
            final(self).wf(),
            !final(self).messenger_live(),
            !final(self).spec_destroyed(),
            old(self).spec_debug_mode() && probe is Failed ==> r == Err::<(), VkError>(
                VkError::FailedToCreateValidationLayer,
            ) && *final(self) == *old(self),
            old(self).spec_debug_mode() && !(probe is Failed) && !layer_check_passes(
                old(self).spec_debug_mode(),
                *probe,
            ) ==> r == Err::<(), VkError>(VkError::ValidationLayersUnavailable) && *final(self)
                == *old(self),
            layer_check_passes(old(self).spec_debug_mode(), *probe) ==> (if driver_accepts_instance {
                r == Ok::<(), VkError>(()) && final(self).instance_live()
            } else {
                r == Err::<(), VkError>(VkError::FailedToCreateInstance) && *final(self) == *old(
                    self,
                )
            }),
    {
        match self.prepare_instance_request(provider_extensions, probe) {
            Ok(_request) => self.commit_instance_creation(driver_accepts_instance),
            Err(e) => Err(e),
        }
    }

    /// Step 7's state transition: attach the diagnostic messenger to the
    /// live instance. Requires debug mode, since a messenger may exist only
    /// in debug mode. A failed attach leaves the instance live: the caller
    /// must notice the error and call `destroy`.
    pub fn create_debugutils(&mut self, driver_accepted: bool) -> (r: Result<(), VkError>)
        requires
            old(self).wf(),
            old(self).spec_debug_mode(),
        ensures
            final(self).spec_debug_mode() == old(self).spec_debug_mode(),
            final(self).wf(),
            !old(self).instance_live() ==> r == Err::<(), VkError>(VkError::InstanceNotInitialized)
                && *final(self) == *old(self),
            old(self).instance_live() && driver_accepted ==> r == Ok::<(), VkError>(())
                && final(self).messenger_live() && final(self).instance_live()
                && final(self).spec_destroyed() == old(self).spec_destroyed(),
            old(self).instance_live() && !driver_accepted ==> r == Err::<(), VkError>(
                VkError::FailedToCreateDebugUtils,
            ) && *final(self) == *old(self),
    {
        if self.has_instance {
            if driver_accepted {
                self.has_messenger = true;
                Ok(())
            } else {
                Err(VkError::FailedToCreateDebugUtils)
            }
        } else {
            Err(VkError::InstanceNotInitialized)
        }
    }

    /// The full bootstrap protocol: query the provider for its extension
    /// list, create the instance, and — in debug mode — attach the
    /// diagnostic messenger.
    pub fn init_with_window<T: VulkanSupport>(&mut self, window: &T, driver: &DriverEvents) -> (r: Result<
        (),
        VkError,
    >)
        requires
            old(self).wf(),
            old(self).is_uninitialized(),
            old(self).spec_debug_mode() ==> !(driver.layer_probe is NotRequested),
        ensures
            final(self).spec_debug_mode() == old(self).spec_debug_mode(),
            final(self).wf(),
            !final(self).spec_destroyed(),
            // With debug mode off the layer set is never consulted: init
            // succeeds exactly when the driver accepts the instance, and no
            // messenger is ever created.
            !old(self).spec_debug_mode() ==> !final(self).messenger_live()
                && (if driver.accept_instance {
                r == Ok::<(), VkError>(()) && final(self).instance_live()
            } else {
                r == Err::<(), VkError>(VkError::FailedToCreateInstance)
                    && !final(self).instance_live()
            }),
            // A failed layer probe or a missing required layer fails before
            // any creation call: no instance, no messenger, whatever the
            // driver would have answered.
            old(self).spec_debug_mode() && driver.layer_probe is Failed ==> r == Err::<(), VkError>(
                VkError::FailedToCreateValidationLayer,
            ) && *final(self) == *old(self),
            old(self).spec_debug_mode() && !(driver.layer_probe is Failed) && !layer_check_passes(
                old(self).spec_debug_mode(),
                driver.layer_probe,
            ) ==> r == Err::<(), VkError>(VkError::ValidationLayersUnavailable) && *final(self)
                == *old(self),
            // Layers available: the driver decides. Success means both the
            // instance and the messenger are live; a failed messenger attach
            // leaves the instance live for the caller to destroy.
            old(self).spec_debug_mode() && layer_check_passes(
                old(self).spec_debug_mode(),
                driver.layer_probe,
            ) ==> (if !driver.accept_instance {
                r == Err::<(), VkError>(VkError::FailedToCreateInstance) && *final(self) == *old(
                    self,
                )
            } else if driver.accept_messenger {
                r == Ok::<(), VkError>(()) && final(self).instance_live()
                    && final(self).messenger_live()
            } else {
                r == Err::<(), VkError>(VkError::FailedToCreateDebugUtils)
                    && final(self).instance_live() && !final(self).messenger_live()
            }),
    {
        let provider_list = window.get_required_extensions_list();
        let mut provider: Vec<String> = Vec::new();
        let mut i: usize = 0;
        while i < provider_list.len()
            decreases provider_list.len() - i,
        {
            provider.push(provider_list[i].to_owned());
            i += 1;
        }
        let result = self.create_instance(&provider, &driver.layer_probe, driver.accept_instance);
        if let Err(e) = result {
            return Err(e);
        }
        if self.debug_mode {
            let result = self.create_debugutils(driver.accept_messenger);
            if let Err(e) = result {
                return Err(e);
            }
        }
        Ok(())
    }

    /// Teardown: release the messenger first, then the instance. Safe to
    /// call with nothing live, and a second call releases nothing.
    pub fn destroy(&mut self) -> (plan: DestroyPlan)
        requires
            old(self).wf(),
        ensures
            destroy_post(*old(self), *final(self), plan),
    {
        let plan = DestroyPlan {
            release_messenger: self.has_messenger,
            release_instance: self.has_instance,
        };
        self.has_messenger = false;
        self.has_instance = false;
        self.destroyed = true;
        plan
    }
}

/// Full description of what `destroy` does: the plan releases exactly the
/// handles that were live, and afterwards nothing is live and the state is
/// terminal.
pub open spec fn destroy_post(pre: VulkanApp, post: VulkanApp, plan: DestroyPlan) -> bool {
    &&& plan.release_messenger == pre.messenger_live()
    &&& plan.release_instance == pre.instance_live()
    &&& post.spec_debug_mode() == pre.spec_debug_mode()
    &&& !post.instance_live()
    &&& !post.messenger_live()
    &&& post.spec_destroyed()
}

/// `destroy` on a bootstrap holding no instance (and hence no messenger)
/// releases nothing: it is a no-op on the handles.
pub proof fn lemma_destroy_without_instance_is_noop(pre: VulkanApp, post: VulkanApp, plan: DestroyPlan)
    requires
        !pre.instance_live(),
        !pre.messenger_live(),
        destroy_post(pre, post, plan),
    ensures
        !plan.release_messenger,
        !plan.release_instance,
{
}

/// A second `destroy` releases nothing: whatever the first call found, the
/// first call left no handle live, so no handle is ever double-released.
pub proof fn lemma_destroy_twice_releases_once(
    s0: VulkanApp,
    s1: VulkanApp,
    p1: DestroyPlan,
    s2: VulkanApp,
    p2: DestroyPlan,
)
    requires
        destroy_post(s0, s1, p1),
        destroy_post(s1, s2, p2),
    ensures
        !p2.release_messenger,
        !p2.release_instance,
{
}

} // verus!
