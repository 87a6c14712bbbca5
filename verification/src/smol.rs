//! The Xenstore of a Windows guest, as an asynchronous interface.
//!
//! The device answers at once, so nothing here has to wait but a watch.

use crate::error::XsError;
use crate::text::boxed;
use std::marker::PhantomData;
use std::sync::Arc;
use vstd::prelude::*;

verus! {

/// An interface over a shared device. Its lifetime is the one of the executor
/// that it is used with.
#[derive(Debug)]
pub struct XsSmol<'a, D>(Arc<D>, PhantomData<&'a ()>);

impl<'a, D> Clone for XsSmol<'a, D> {
    fn clone(&self) -> (r: Self)
        ensures
            r.spec_device() == self.spec_device(),
    {
        XsSmol(self.0.clone(), PhantomData)
    }
}

impl<'a, D> XsSmol<'a, D> {
    /// The device below.
    pub closed spec fn spec_device(&self) -> D {
        *self.0
    }

    /// The interface over a device, if that could be opened.
    pub fn new<E>(device: Result<D, E>) -> (r: Result<Self, E>)
        ensures
            match device {
                Ok(d) => r matches Ok(xs) && xs.spec_device() == d,
                Err(e) => r == Err::<Self, E>(e),
            },
    {
        match device {
            Ok(device) => Ok(XsSmol(Arc::new(device), PhantomData)),
            Err(e) => Err(e),
        }
    }

    /// The device below.
    pub fn device(&self) -> (device: &D)
        ensures
            *device == self.spec_device(),
    {
        &self.0
    }

    /// Permissions cannot be read.
    pub fn get_perms<P>(&self, _path: &str) -> (r: Result<Vec<P>, XsError>)
        ensures
            r == Err::<Vec<P>, XsError>(XsError::Unsupported),
    {
        Err(XsError::Unsupported)
    }

    /// Permissions cannot be set.
    pub fn set_perms<P>(&self, _path: &str, _perms: &[P]) -> (r: Result<(), XsError>)
        ensures
            r == Err::<(), XsError>(XsError::Unsupported),
    {
        Err(XsError::Unsupported)
    }
}

/// Each of these asks the device once, by `ask`, and for nothing else.
impl<'a, D> XsSmol<'a, D> {
    /// What the device lists.
    pub fn directory<E, F>(&self, path: &str, ask: F) -> (r: Result<Vec<Box<str>>, E>) where
        F: FnOnce(&D, &str) -> Result<Vec<Box<str>>, E>,

        requires
            call_requires(ask, (&self.spec_device(), path)),
        ensures
            call_ensures(ask, (&self.spec_device(), path), r),
    {
        ask(&self.0, path)
    }

    /// What the device reads.
    pub fn read<E, F>(&self, path: &str, ask: F) -> (r: Result<Box<str>, E>) where
        F: FnOnce(&D, &str) -> Result<Box<str>, E>,

        requires
            call_requires(ask, (&self.spec_device(), path)),
        ensures
            call_ensures(ask, (&self.spec_device(), path), r),
    {
        ask(&self.0, path)
    }

    /// What the device says to a write.
    pub fn write<E, F>(&self, path: &str, data: &str, ask: F) -> (r: Result<(), E>) where
        F: FnOnce(&D, &str, &str) -> Result<(), E>,

        requires
            call_requires(ask, (&self.spec_device(), path, data)),
        ensures
            call_ensures(ask, (&self.spec_device(), path, data), r),
    {
        ask(&self.0, path, data)
    }

    /// What the device says to a removal.
    pub fn rm<E, F>(&self, path: &str, ask: F) -> (r: Result<(), E>) where
        F: FnOnce(&D, &str) -> Result<(), E>,

        requires
            call_requires(ask, (&self.spec_device(), path)),
        ensures
            call_ensures(ask, (&self.spec_device(), path), r),
    {
        ask(&self.0, path)
    }
}

/// A watch of a path: what to wait on, and how to tell the device to end it.
#[derive(Debug)]
pub struct XsWindowsWatch<D, W, C> {
    pub device: D,
    pub waitable: W,
    pub context: C,
    pub path: Box<str>,
}

/// What a look at a watch has shown.
#[derive(Debug, PartialEq, Eq)]
pub enum XsWatchPoll {
    /// Nothing happened yet.
    Pending,
    /// Something below this path may have changed.
    Changed(Box<str>),
    /// The watch has ended.
    Ended,
}

impl<'a, D> XsSmol<'a, D> {
    /// Opens a watch: gets a device handle of its own, has the device make the
    /// watch, then makes its event something that can be waited on. The first of
    /// these that fails ends it.
    pub fn watch<H, W, C, E, F, G, K>(&self, path: &str, try_clone: F, make_watch: G, wait_on: K)
        -> (r: Result<XsWindowsWatch<D, W, C>, E>) where
        F: FnOnce(&D) -> Result<D, E>,
        G: FnOnce(&D, &str) -> Result<(H, C), E>,
        K: FnOnce(H) -> Result<W, E>,

        requires
            call_requires(try_clone, (&self.spec_device(),)),
            (exists|device: D| #[trigger]
                call_ensures(try_clone, (&self.spec_device(),), Ok(device))) ==> call_requires(
                make_watch,
                (&self.spec_device(), path),
            ),
            forall|event: H, context: C| #[trigger]
                call_ensures(make_watch, (&self.spec_device(), path), Ok((event, context)))
                    ==> call_requires(wait_on, (event,)),
        ensures
            match r {
                Ok(watch) => {
                    &&& call_ensures(try_clone, (&self.spec_device(),), Ok(watch.device))
                    &&& exists|event: H|
                        {
                            &&& call_ensures(
                                make_watch,
                                (&self.spec_device(), path),
                                Ok((event, watch.context)),
                            )
                            &&& #[trigger] call_ensures(wait_on, (event,), Ok(watch.waitable))
                        }
                    &&& watch.path@ == path@
                },
                Err(e) => {
                    ||| call_ensures(try_clone, (&self.spec_device(),), Err(e))
                    ||| exists|device: D|
                        {
                            &&& #[trigger] call_ensures(
                                try_clone,
                                (&self.spec_device(),),
                                Ok(device),
                            )
                            &&& call_ensures(make_watch, (&self.spec_device(), path), Err(e))
                        }
                    ||| exists|device: D, event: H, context: C|
                        {
                            &&& #[trigger] call_ensures(
                                try_clone,
                                (&self.spec_device(),),
                                Ok(device),
                            )
                            &&& #[trigger] call_ensures(
                                make_watch,
                                (&self.spec_device(), path),
                                Ok((event, context)),
                            )
                            &&& call_ensures(wait_on, (event,), Err(e))
                        }
                },
            },
    {
        let device = match try_clone(&self.0) {
            Ok(device) => device,
            Err(e) => {
                return Err(e);
            },
        };
        let (event, context) = match make_watch(&self.0, path) {
            Ok(made) => made,
            Err(e) => {
                return Err(e);
            },
        };
        match wait_on(event) {
            Ok(waitable) => {
                let watch = XsWindowsWatch { device, waitable, context, path: boxed(path) };
                assert(call_ensures(
                    make_watch,
                    (&self.spec_device(), path),
                    Ok((event, watch.context)),
                ));
                assert(call_ensures(wait_on, (event,), Ok(watch.waitable)));
                Ok(watch)
            },
            Err(e) => Err(e),
        }
    }
}

impl<D, W, C> XsWindowsWatch<D, W, C> {
    /// Looks at the watch. `waited` is what the waitable says: nothing yet, that
    /// the event is set, or that waiting failed. A set event is reset.
    pub fn poll_next<E, T, R>(&self, waited: Option<Result<(), E>>, reset: R) -> (r: XsWatchPoll)
        where R: FnOnce(&W) -> T

        requires
            waited matches Some(Ok(())) ==> call_requires(reset, (&self.waitable,)),
        ensures
            match waited {
                None => r == XsWatchPoll::Pending,
                Some(Ok(())) => {
                    &&& r matches XsWatchPoll::Changed(path)
                    &&& path@ == self.path@
                    &&& exists|done: T| call_ensures(reset, (&self.waitable,), done)
                },
                Some(Err(_)) => r == XsWatchPoll::Ended,
            },
    {
        match waited {
            None => XsWatchPoll::Pending,
            Some(Ok(())) => {
                let _ = reset(&self.waitable);
                XsWatchPoll::Changed(boxed(&self.path))
            },
            Some(Err(_)) => XsWatchPoll::Ended,
        }
    }
}

impl<D, W, C: Copy> XsWindowsWatch<D, W, C> {
    /// Ends the watch: tells the device to destroy the one of this context.
    pub fn destroy<E, F>(&self, destroy_watch: F) -> (r: Result<(), E>) where
        F: FnOnce(&D, C) -> Result<(), E>,

        requires
            call_requires(destroy_watch, (&self.device, self.context)),
        ensures
            call_ensures(destroy_watch, (&self.device, self.context), r),
    {
        destroy_watch(&self.device, self.context)
    }
}

/// An interface asks the device that it was made of, with the arguments as they came,
/// and hands on what that says.
pub proof fn law_interface_asks_its_device<'a, D, E, F, G, H, K>(
    device: D,
    made: Result<XsSmol<'a, D>, E>,
    xs: XsSmol<'a, D>,
    path: &str,
    data: &str,
    list: F,
    listed: Result<Vec<Box<str>>, E>,
    get: G,
    got: Result<Box<str>, E>,
    set: H,
    was_set: Result<(), E>,
    remove: K,
    removed: Result<(), E>,
) where
    F: FnOnce(&D, &str) -> Result<Vec<Box<str>>, E>,
    G: FnOnce(&D, &str) -> Result<Box<str>, E>,
    H: FnOnce(&D, &str, &str) -> Result<(), E>,
    K: FnOnce(&D, &str) -> Result<(), E>,

    requires
        call_ensures(XsSmol::<'a, D>::new::<E>, (Ok(device),), made),
        made matches Ok(m) ==> m == xs,
        call_ensures(XsSmol::<'a, D>::directory::<E, F>, (&xs, path, list), listed),
        call_ensures(XsSmol::<'a, D>::read::<E, G>, (&xs, path, get), got),
        call_ensures(XsSmol::<'a, D>::write::<E, H>, (&xs, path, data, set), was_set),
        call_ensures(XsSmol::<'a, D>::rm::<E, K>, (&xs, path, remove), removed),
    ensures
        made is Ok,
        call_ensures(list, (&device, path), listed),
        call_ensures(get, (&device, path), got),
        call_ensures(set, (&device, path, data), was_set),
        call_ensures(remove, (&device, path), removed),
{
}

/// A watch tells the path with which it was opened each time its event is set, and ends
/// when waiting fails.
pub proof fn law_watch_tells_its_path<'a, D, H, W, C, E, F, G, K, T, R, X>(
    xs: XsSmol<'a, D>,
    path: &str,
    try_clone: F,
    make_watch: G,
    wait_on: K,
    watch: XsWindowsWatch<D, W, C>,
    waited: Option<Result<(), X>>,
    reset: R,
    polled: XsWatchPoll,
) where
    F: FnOnce(&D) -> Result<D, E>,
    G: FnOnce(&D, &str) -> Result<(H, C), E>,
    K: FnOnce(H) -> Result<W, E>,
    R: FnOnce(&W) -> T,

    requires
        call_ensures(
            XsSmol::<'a, D>::watch::<H, W, C, E, F, G, K>,
            (&xs, path, try_clone, make_watch, wait_on),
            Ok(watch),
        ),
        call_ensures(XsWindowsWatch::<D, W, C>::poll_next::<X, T, R>, (&watch, waited, reset), polled),
    ensures
        waited is None ==> polled == XsWatchPoll::Pending,
        waited matches Some(Ok(())) ==> (polled matches XsWatchPoll::Changed(told) && told@
            == path@),
        waited matches Some(Err(_)) ==> polled == XsWatchPoll::Ended,
{
}

/// Permissions are neither read nor set: each attempt is an error of its own, whatever
/// the path.
pub proof fn law_permissions_are_not_supported<'a, D, P>(
    xs: XsSmol<'a, D>,
    path: &str,
    perms: &[P],
    got: Result<Vec<P>, XsError>,
    was_set: Result<(), XsError>,
)
    requires
        call_ensures(XsSmol::<'a, D>::get_perms::<P>, (&xs, path), got),
        call_ensures(XsSmol::<'a, D>::set_perms::<P>, (&xs, path, perms), was_set),
    ensures
        got matches Err(e) && e is Unsupported,
        was_set matches Err(e) && e is Unsupported,
{
}

/// An interface and its clones share the device that it was made of.
pub proof fn law_clones_share_the_device<'a, D, E>(
    device: Result<D, E>,
    made: Result<XsSmol<'a, D>, E>,
    xs: XsSmol<'a, D>,
    other: XsSmol<'a, D>,
    held: &D,
    other_held: &D,
)
    requires
        call_ensures(XsSmol::<'a, D>::new::<E>, (device,), made),
        made matches Ok(m) ==> m == xs,
        call_ensures(<XsSmol<'a, D> as Clone>::clone, (&xs,), other),
        call_ensures(XsSmol::<'a, D>::device, (&xs,), held),
        call_ensures(XsSmol::<'a, D>::device, (&other,), other_held),
    ensures
        device matches Ok(d) ==> made is Ok && *held == d,
        device matches Err(e) ==> made == Err::<XsSmol<'a, D>, E>(e),
        *other_held == *held,
{
}

/// A watch holds a handle of its own, the context that the device gave it and what that
/// device's event was made into. Its event is reset when it was set, and its end is told
/// to its own handle, with its own context.
pub proof fn law_watch_keeps_to_its_own_parts<'a, D, H, W, C: Copy, E, F, G, K, T, R, X, Z>(
    xs: XsSmol<'a, D>,
    device: &D,
    path: &str,
    try_clone: F,
    make_watch: G,
    wait_on: K,
    watch: XsWindowsWatch<D, W, C>,
    reset: R,
    polled: XsWatchPoll,
    destroy_watch: Z,
    ended: Result<(), X>,
) where
    F: FnOnce(&D) -> Result<D, E>,
    G: FnOnce(&D, &str) -> Result<(H, C), E>,
    K: FnOnce(H) -> Result<W, E>,
    R: FnOnce(&W) -> T,
    Z: FnOnce(&D, C) -> Result<(), X>,

    requires
        call_ensures(XsSmol::<'a, D>::device, (&xs,), device),
        call_ensures(
            XsSmol::<'a, D>::watch::<H, W, C, E, F, G, K>,
            (&xs, path, try_clone, make_watch, wait_on),
            Ok(watch),
        ),
        call_ensures(
            XsWindowsWatch::<D, W, C>::poll_next::<X, T, R>,
            (&watch, Some(Ok(())), reset),
            polled,
        ),
        call_ensures(
            XsWindowsWatch::<D, W, C>::destroy::<X, Z>,
            (&watch, destroy_watch),
            ended,
        ),
    ensures
        call_ensures(try_clone, (device,), Ok(watch.device)),
        exists|event: H|
            {
                &&& call_ensures(make_watch, (device, path), Ok((event, watch.context)))
                &&& #[trigger] call_ensures(wait_on, (event,), Ok(watch.waitable))
            },
        exists|done: T| call_ensures(reset, (&watch.waitable,), done),
        call_ensures(destroy_watch, (&watch.device, watch.context), ended),
{
}

} // verus!
