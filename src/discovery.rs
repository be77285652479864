//! One-time discovery of the compositor's globals this daemon needs.
use vstd::prelude::*;
use crate::text::same_text;
use wayland_client::protocol::__interfaces::WL_COMPOSITOR_INTERFACE;
use wayland_protocols::wp::idle_inhibit::zv1::client::__interfaces::ZWP_IDLE_INHIBIT_MANAGER_V1_INTERFACE;

verus! {

/// A global of the compositor that this daemon binds.
#[derive(Clone, Copy, Debug, PartialEq, Eq, Structural)]
pub enum Capability {
    /// `wl_compositor`, from which the surface is made.
    Compositor,
    /// `zwp_idle_inhibit_manager_v1`, which makes inhibitors.
    IdleInhibitManager,
}

/// The capability an announced interface name stands for, if any.
pub open spec fn capability_named(interface: Seq<char>) -> Option<Capability> {
    if interface == "wl_compositor"@ {
        Some(Capability::Compositor)
    } else if interface == "zwp_idle_inhibit_manager_v1"@ {
        Some(Capability::IdleInhibitManager)
    } else {
        None
    }
}

/// Relies on wayland_client's `WL_COMPOSITOR_INTERFACE.name`, generated from
/// the `wl_compositor` interface of wayland.xml.
#[verifier::external_body]
fn compositor_interface_name() -> (r: &'static str)
    ensures
        r@ == "wl_compositor"@,
{
    WL_COMPOSITOR_INTERFACE.name
}

/// Relies on wayland_protocols' `ZWP_IDLE_INHIBIT_MANAGER_V1_INTERFACE.name`,
/// generated from the `zwp_idle_inhibit_manager_v1` interface of
/// idle-inhibit-unstable-v1.xml.
#[verifier::external_body]
fn idle_inhibit_manager_interface_name() -> (r: &'static str)
    ensures
        r@ == "zwp_idle_inhibit_manager_v1"@,
{
    ZWP_IDLE_INHIBIT_MANAGER_V1_INTERFACE.name
}

/// Which capability, if any, a global announced under `interface` provides.
pub fn capability_of(interface: &str) -> (r: Option<Capability>)
    ensures
        r == capability_named(interface@),
{
    if same_text(interface, compositor_interface_name()) {
        Some(Capability::Compositor)
    } else if same_text(interface, idle_inhibit_manager_interface_name()) {
        Some(Capability::IdleInhibitManager)
    } else {
        None
    }
}

/// What discovery yields once complete: the compositor, a surface made from it,
/// and the inhibit manager.
pub struct SessionCapabilities<C, S, M> {
    pub compositor: C,
    pub surface: S,
    pub manager: M,
}

/// The globals bound so far during discovery.
pub struct Discovery<C, S, M> {
    compositor: Option<C>,
    surface: Option<S>,
    manager: Option<M>,
}

impl<C, S, M> Discovery<C, S, M> {
    /// The compositor bound so far.
    pub closed spec fn compositor(&self) -> Option<C> {
        self.compositor
    }

    /// The surface made so far.
    pub closed spec fn surface(&self) -> Option<S> {
        self.surface
    }

    /// The inhibit manager bound so far.
    pub closed spec fn manager(&self) -> Option<M> {
        self.manager
    }

    /// Nothing bound yet.
    pub fn new() -> (r: Self)
        ensures
            r.compositor() is None,
            r.surface() is None,
            r.manager() is None,
    {
        Discovery { compositor: None, surface: None, manager: None }
    }

    /// Records a bound compositor and the surface made from it.
    pub fn found_compositor(&mut self, compositor: C, surface: S)
        ensures
            final(self).compositor() == Some(compositor),
            final(self).surface() == Some(surface),
            final(self).manager() == old(self).manager(),
    {
        self.compositor = Some(compositor);
        self.surface = Some(surface);
    }

    /// Records a bound inhibit manager.
    pub fn found_manager(&mut self, manager: M)
        ensures
            final(self).compositor() == old(self).compositor(),
            final(self).surface() == old(self).surface(),
            final(self).manager() == Some(manager),
    {
        self.manager = Some(manager);
    }

    /// Whether everything the aggregator needs has been bound.
    pub fn is_complete(&self) -> (r: bool)
        ensures
            r == (self.compositor() is Some && self.surface() is Some && self.manager() is Some),
    {
        self.compositor.is_some() && self.surface.is_some() && self.manager.is_some()
    }

    /// The capabilities, once all are present; `None` while any is missing.
    pub fn finish(self) -> (r: Option<SessionCapabilities<C, S, M>>)
        ensures
            r is Some <==> (self.compositor() is Some && self.surface() is Some
                && self.manager() is Some),
            r is Some ==> r->0.compositor == self.compositor()->0 && r->0.surface
                == self.surface()->0 && r->0.manager == self.manager()->0,
    {
        match (self.compositor, self.surface, self.manager) {
            (Some(compositor), Some(surface), Some(manager)) => Some(
                SessionCapabilities { compositor, surface, manager },
            ),
            _ => None,
        }
    }
}

} // verus!
