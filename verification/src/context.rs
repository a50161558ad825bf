//! The shared backend context and its lifecycle: each bootstrap step
//! installs what it created, recreation swaps the presentation chain out
//! and in, and teardown plans the destruction of everything in strict
//! reverse creation order, exactly once.
//!
//! Foreign handles are carried as plain integers. The foreign-API layer
//! performs each `DestroyAction` in the order the plan lists; the plan
//! itself, and the guarantee that a second teardown is a no-op, are what
//! this module proves.

use vstd::prelude::*;
use crate::device::QueueFamilyIndices;
use crate::swapchain::{Extent2D, SurfaceFormat, SwapchainConfig};

verus! {

/// The three queue handles retrieved from the logical device. Handles may
/// alias when families coincide.
#[derive(Clone, Copy, Debug, PartialEq, Eq, Structural)]
pub struct QueueHandles {
    pub graphics: u64,
    pub transfer: u64,
    pub presentation: u64,
}

/// One step of the destruction protocol, carrying the handle it applies
/// to. The foreign-API layer executes these strictly in plan order.
#[derive(Clone, Copy, Debug, PartialEq, Eq, Structural)]
pub enum DestroyAction {
    ImageView(u64),
    Swapchain(u64),
    Device(u64),
    Surface(u64),
    DebugMessenger(u64),
    Instance(u64),
}

/// The backend's shared mutable state: every handle the bootstrap steps
/// create, each step filling its own fields. Once `destroyed`, nothing is
/// held any more and teardown plans nothing further.
pub struct Context {
    pub instance: Option<u64>,
    /// Present only when validation was requested at bootstrap.
    pub messenger: Option<u64>,
    pub surface: Option<u64>,
    pub physical_device: Option<u64>,
    pub queue_indices: Option<QueueFamilyIndices>,
    pub device: Option<u64>,
    pub queues: Option<QueueHandles>,
    pub swapchain: Option<u64>,
    pub swapchain_format: Option<SurfaceFormat>,
    pub swapchain_extent: Option<Extent2D>,
    pub swapchain_images: Vec<u64>,
    pub swapchain_image_views: Vec<u64>,
    pub destroyed: bool,
}

/// The destruction plan for the image views: one action per view, in the
/// order the views were created.
pub open spec fn view_actions(views: Seq<u64>) -> Seq<DestroyAction> {
    views.map_values(|h: u64| DestroyAction::ImageView(h))
}

/// One action for a handle that may be absent.
pub open spec fn handle_action(h: Option<u64>, a: spec_fn(u64) -> DestroyAction) -> Seq<DestroyAction> {
    match h {
        Some(v) => seq![a(v)],
        None => Seq::<DestroyAction>::empty(),
    }
}

/// The full destruction plan of a context: every image view, then the
/// swapchain, the logical device, the surface, the debug messenger if one
/// was installed, and last the instance — the exact reverse of creation
/// order, so no object outlives what it was derived from.
pub open spec fn teardown_plan(c: Context) -> Seq<DestroyAction> {
    view_actions(c.swapchain_image_views@)
        + handle_action(c.swapchain, |h: u64| DestroyAction::Swapchain(h))
        + handle_action(c.device, |h: u64| DestroyAction::Device(h))
        + handle_action(c.surface, |h: u64| DestroyAction::Surface(h))
        + handle_action(c.messenger, |h: u64| DestroyAction::DebugMessenger(h))
        + handle_action(c.instance, |h: u64| DestroyAction::Instance(h))
}

impl Context {
    /// Structural soundness of the context: derived objects exist only
    /// while what they were created from exists, the device-level fields
    /// are filled together, views pair up with images one to one, and a
    /// destroyed context holds nothing.
    pub open spec fn wf(self) -> bool {
        &&& self.messenger is Some ==> self.instance is Some
        &&& self.surface is Some ==> self.instance is Some
        &&& self.device is Some ==> self.surface is Some
        &&& self.physical_device is Some <==> self.device is Some
        &&& self.queue_indices is Some <==> self.device is Some
        &&& self.queues is Some <==> self.device is Some
        &&& self.swapchain is Some ==> self.device is Some
        &&& self.swapchain_format is Some <==> self.swapchain is Some
        &&& self.swapchain_extent is Some <==> self.swapchain is Some
        &&& self.swapchain_images@.len() > 0 ==> self.swapchain is Some
        &&& self.swapchain_image_views@.len() == self.swapchain_images@.len()
        &&& self.destroyed ==> self.instance is None && self.swapchain_images@.len() == 0
    }

    /// A context with nothing created yet.
    pub fn new() -> (c: Context)
        ensures
            c.wf(),
            !c.destroyed,
            c.instance is None,
            c.messenger is None,
            c.surface is None,
            c.physical_device is None,
            c.queue_indices is None,
            c.device is None,
            c.queues is None,
            c.swapchain is None,
            c.swapchain_format is None,
            c.swapchain_extent is None,
            c.swapchain_images@.len() == 0,
            c.swapchain_image_views@.len() == 0,
    {
        Context {
            instance: None,
            messenger: None,
            surface: None,
            physical_device: None,
            queue_indices: None,
            device: None,
            queues: None,
            swapchain: None,
            swapchain_format: None,
            swapchain_extent: None,
            swapchain_images: Vec::new(),
            swapchain_image_views: Vec::new(),
            destroyed: false,
        }
    }

    /// Record the created instance and, when validation was requested,
    /// the debug messenger installed with it.
    pub fn install_instance(&mut self, instance: u64, messenger: Option<u64>)
        requires
            old(self).wf(),
            !old(self).destroyed,
            old(self).instance is None,
        ensures
            final(self).wf(),
            *final(self) == (Context {
                instance: Some(instance),
                messenger,
                ..*old(self)
            }),
    {
        self.instance = Some(instance);
        self.messenger = messenger;
    }

    /// Record the surface bound to the window.
    pub fn install_surface(&mut self, surface: u64)
        requires
            old(self).wf(),
            !old(self).destroyed,
            old(self).instance is Some,
            old(self).surface is None,
        ensures
            final(self).wf(),
            *final(self) == (Context { surface: Some(surface), ..*old(self) }),
    {
        self.surface = Some(surface);
    }

    /// Record the selected physical device, the created logical device,
    /// the resolved family indices and the retrieved queue handles.
    pub fn install_device(
        &mut self,
        physical_device: u64,
        device: u64,
        queue_indices: QueueFamilyIndices,
        queues: QueueHandles,
    )
        requires
            old(self).wf(),
            !old(self).destroyed,
            old(self).surface is Some,
            old(self).device is None,
        ensures
            final(self).wf(),
            *final(self) == (Context {
                physical_device: Some(physical_device),
                device: Some(device),
                queue_indices: Some(queue_indices),
                queues: Some(queues),
                ..*old(self)
            }),
    {
        self.physical_device = Some(physical_device);
        self.device = Some(device);
        self.queue_indices = Some(queue_indices);
        self.queues = Some(queues);
    }

    /// Record a freshly created swapchain under the configuration it was
    /// created with. Its images and views are installed separately, once
    /// queried and created.
    pub fn install_swapchain(&mut self, swapchain: u64, config: &SwapchainConfig)
        requires
            old(self).wf(),
            !old(self).destroyed,
            old(self).device is Some,
            old(self).swapchain is None,
        ensures
            final(self).wf(),
            *final(self) == (Context {
                swapchain: Some(swapchain),
                swapchain_format: Some(config.format),
                swapchain_extent: Some(config.extent),
                ..*old(self)
            }),
    {
        self.swapchain = Some(swapchain);
        self.swapchain_format = Some(config.format);
        self.swapchain_extent = Some(config.extent);
    }

    /// Record the queried swapchain images and the views created over
    /// them: one view per image, in image order.
    pub fn install_image_views(&mut self, images: Vec<u64>, views: Vec<u64>)
        requires
            old(self).wf(),
            !old(self).destroyed,
            old(self).swapchain is Some,
            old(self).swapchain_images@.len() == 0,
            views@.len() == images@.len(),
        ensures
            final(self).wf(),
            *final(self) == (Context {
                swapchain_images: images,
                swapchain_image_views: views,
                ..*old(self)
            }),
    {
        self.swapchain_images = images;
        self.swapchain_image_views = views;
    }

    /// Start a swapchain recreation: plan the destruction of the current
    /// views and swapchain (views first) and forget them, leaving the
    /// context ready for a clean rebuild against the new window size. The
    /// caller must have made sure no GPU work references the old images.
    pub fn begin_swapchain_recreation(&mut self) -> (actions: Vec<DestroyAction>)
        requires
            old(self).wf(),
            !old(self).destroyed,
            old(self).swapchain is Some,
        ensures
            final(self).wf(),
            actions@ == view_actions(old(self).swapchain_image_views@)
                + handle_action(old(self).swapchain, |h: u64| DestroyAction::Swapchain(h)),
            final(self).swapchain is None,
            final(self).swapchain_format is None,
            final(self).swapchain_extent is None,
            final(self).swapchain_images@.len() == 0,
            final(self).swapchain_image_views@.len() == 0,
            final(self).instance == old(self).instance,
            final(self).messenger == old(self).messenger,
            final(self).surface == old(self).surface,
            final(self).physical_device == old(self).physical_device,
            final(self).queue_indices == old(self).queue_indices,
            final(self).device == old(self).device,
            final(self).queues == old(self).queues,
            final(self).destroyed == old(self).destroyed,
    {
        let mut actions: Vec<DestroyAction> = Vec::new();
        proof {
            assert(view_actions(self.swapchain_image_views@.take(0)) =~= Seq::<DestroyAction>::empty());
        }
        let mut idx: usize = 0;
        while idx < self.swapchain_image_views.len()
            invariant
                idx <= self.swapchain_image_views@.len(),
                *self == *old(self),
                actions@ == view_actions(self.swapchain_image_views@.take(idx as int)),
            decreases self.swapchain_image_views@.len() - idx,
        {
            actions.push(DestroyAction::ImageView(self.swapchain_image_views[idx]));
            proof {
                let views = self.swapchain_image_views@;
                assert(actions@ =~= view_actions(views.take(idx as int + 1)));
            }
            idx = idx + 1;
        }
        proof {
            let views = self.swapchain_image_views@;
            assert(views.take(views.len() as int) =~= views);
        }
        match self.swapchain {
            Some(h) => actions.push(DestroyAction::Swapchain(h)),
            None => (),
        }
        self.swapchain = None;
        self.swapchain_format = None;
        self.swapchain_extent = None;
        self.swapchain_images = Vec::new();
        self.swapchain_image_views = Vec::new();
        proof {
            assert(actions@ =~= view_actions(old(self).swapchain_image_views@)
                + handle_action(old(self).swapchain, |h: u64| DestroyAction::Swapchain(h)));
        }
        actions
    }

    /// Plan the destruction of everything the context holds, in strict
    /// reverse creation order, and enter the terminal destroyed state.
    /// On an already-destroyed context this plans nothing and changes
    /// nothing: a second teardown is a no-op, never a double free. The
    /// caller must have made sure the device is idle first.
    pub fn teardown(&mut self) -> (actions: Vec<DestroyAction>)
        requires
            old(self).wf(),
        ensures
            final(self).wf(),
            final(self).destroyed,
            old(self).destroyed ==> actions@ == Seq::<DestroyAction>::empty()
                && *final(self) == *old(self),
            !old(self).destroyed ==> actions@ == teardown_plan(*old(self)),
    {
        let mut actions: Vec<DestroyAction> = Vec::new();
        if self.destroyed {
            return actions;
        }
        proof {
            assert(view_actions(self.swapchain_image_views@.take(0)) =~= Seq::<DestroyAction>::empty());
        }
        let mut idx: usize = 0;
        while idx < self.swapchain_image_views.len()
            invariant
                idx <= self.swapchain_image_views@.len(),
                *self == *old(self),
                actions@ == view_actions(self.swapchain_image_views@.take(idx as int)),
            decreases self.swapchain_image_views@.len() - idx,
        {
            actions.push(DestroyAction::ImageView(self.swapchain_image_views[idx]));
            proof {
                let views = self.swapchain_image_views@;
                assert(actions@ =~= view_actions(views.take(idx as int + 1)));
            }
            idx = idx + 1;
        }
        proof {
            let views = self.swapchain_image_views@;
            assert(views.take(views.len() as int) =~= views);
        }
        match self.swapchain {
            Some(h) => actions.push(DestroyAction::Swapchain(h)),
            None => (),
        }
        match self.device {
            Some(h) => actions.push(DestroyAction::Device(h)),
            None => (),
        }
        match self.surface {
            Some(h) => actions.push(DestroyAction::Surface(h)),
            None => (),
        }
        match self.messenger {
            Some(h) => actions.push(DestroyAction::DebugMessenger(h)),
            None => (),
        }
        match self.instance {
            Some(h) => actions.push(DestroyAction::Instance(h)),
            None => (),
        }
        self.instance = None;
        self.messenger = None;
        self.surface = None;
        self.physical_device = None;
        self.queue_indices = None;
        self.device = None;
        self.queues = None;
        self.swapchain = None;
        self.swapchain_format = None;
        self.swapchain_extent = None;
        self.swapchain_images = Vec::new();
        self.swapchain_image_views = Vec::new();
        self.destroyed = true;
        proof {
            assert(actions@ =~= teardown_plan(*old(self)));
        }
        actions
    }
}

impl Default for Context {
    /// The same empty context `new` returns.
    fn default() -> (c: Context)
        ensures
            c.wf(),
            !c.destroyed,
            c.instance is None,
            c.messenger is None,
            c.surface is None,
            c.device is None,
            c.swapchain is None,
            c.swapchain_images@.len() == 0,
            c.swapchain_image_views@.len() == 0,
    {
        Context::new()
    }
}

/// Law: for a fully populated context the teardown plan is exactly every
/// image view in creation order, then the swapchain, the logical device,
/// the surface, the debug messenger, and last the instance.
pub proof fn lemma_teardown_order(
    c: Context,
    instance: u64,
    messenger: u64,
    surface: u64,
    device: u64,
    swapchain: u64,
)
    requires
        c.instance == Some(instance),
        c.messenger == Some(messenger),
        c.surface == Some(surface),
        c.device == Some(device),
        c.swapchain == Some(swapchain),
    ensures
        teardown_plan(c) =~= view_actions(c.swapchain_image_views@) + seq![
            DestroyAction::Swapchain(swapchain),
            DestroyAction::Device(device),
            DestroyAction::Surface(surface),
            DestroyAction::DebugMessenger(messenger),
            DestroyAction::Instance(instance),
        ],
{
}

} // verus!
