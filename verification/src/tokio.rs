//! Opening of the Xenstore interface of a Unix system, and the client over it.
//!
//! The daemon's socket comes first. Where that cannot be reached, the Xenstore
//! device takes its place.

use vstd::prelude::*;

verus! {

/// The daemon's socket, unless the environment names another one.
pub const XENSTORED_SOCKET: &'static str = "/run/xenstored/socket";

/// What comes next in opening the interface.
#[derive(Debug, PartialEq, Eq)]
pub enum XsOpening {
    /// Connect to the socket with this path.
    Connect(String),
    /// Open the Xenstore device.
    OpenDevice,
    /// Run the multiplexer on what was opened last.
    Launch,
    /// Give up with the error of the last attempt.
    Fail,
}

impl XsOpening {
    /// Begins to open the interface. `xsd_path` is the socket that the environment
    /// names, if it names one.
    pub fn start(xsd_path: Option<String>) -> (opening: XsOpening)
        ensures
            opening matches XsOpening::Connect(path) && path@ == match xsd_path {
                Some(named) => named@,
                None => XENSTORED_SOCKET@,
            },
    {
        match xsd_path {
            Some(path) => XsOpening::Connect(path),
            None => XsOpening::Connect(XENSTORED_SOCKET.to_owned()),
        }
    }

    /// What follows an attempt, by whether it succeeded.
    pub open spec fn spec_next(self, opened: bool) -> XsOpening {
        match self {
            XsOpening::Connect(_) => if opened {
                XsOpening::Launch
            } else {
                XsOpening::OpenDevice
            },
            XsOpening::OpenDevice => if opened {
                XsOpening::Launch
            } else {
                XsOpening::Fail
            },
            XsOpening::Launch => XsOpening::Launch,
            XsOpening::Fail => XsOpening::Fail,
        }
    }

    /// Goes on after an attempt. `opened` says whether it succeeded.
    pub fn next(&self, opened: bool) -> (opening: XsOpening)
        ensures
            opening == self.spec_next(opened),
    {
        match self {
            XsOpening::Connect(_) => if opened {
                XsOpening::Launch
            } else {
                XsOpening::OpenDevice
            },
            XsOpening::OpenDevice => if opened {
                XsOpening::Launch
            } else {
                XsOpening::Fail
            },
            XsOpening::Launch => XsOpening::Launch,
            XsOpening::Fail => XsOpening::Fail,
        }
    }
}

/// The device is tried exactly when the socket cannot be reached, and opening fails
/// exactly when neither can be.
pub proof fn lemma_device_stands_in_for_socket(path: String, connected: bool, opened: bool)
    ensures
        ({
            let tried = XsOpening::Connect(path).spec_next(connected);
            &&& tried == XsOpening::OpenDevice <==> !connected
            &&& tried.spec_next(opened) == if connected || opened {
                XsOpening::Launch
            } else {
                XsOpening::Fail
            }
        }),
{
}

/// A Xenstore interface over a client of the multiplexer.
///
/// It can be cloned and used concurrently by multiple tasks where the client can.
#[derive(Debug)]
pub struct XsTokio<C>(C);

impl<C: Clone> Clone for XsTokio<C> {
    fn clone(&self) -> (r: Self)
        ensures
            cloned(self.spec_client(), r.spec_client()),
    {
        XsTokio(self.0.clone())
    }
}

impl<C> XsTokio<C> {
    /// The client below.
    pub closed spec fn spec_client(&self) -> C {
        self.0
    }

    /// The interface over a client, if the multiplexer could be launched.
    pub fn new<E>(client: Result<C, E>) -> (r: Result<Self, E>)
        ensures
            match client {
                Ok(c) => r matches Ok(xs) && xs.spec_client() == c,
                Err(e) => r == Err::<Self, E>(e),
            },
    {
        match client {
            Ok(client) => Ok(XsTokio(client)),
            Err(e) => Err(e),
        }
    }

    /// The client below.
    pub fn client(&self) -> (client: &C)
        ensures
            *client == self.spec_client(),
    {
        &self.0
    }
}

/// The socket that the environment names is the first to be tried, whatever its name,
/// and else the daemon's own.
pub proof fn law_socket_is_tried_first(xsd_path: Option<String>, opening: XsOpening)
    requires
        call_ensures(XsOpening::start, (xsd_path,), opening),
    ensures
        opening matches XsOpening::Connect(path) && {
            &&& xsd_path matches Some(named) ==> path@ == named@
            &&& xsd_path is None ==> path@ == "/run/xenstored/socket"@
        },
{
}

/// Where the socket can be reached the multiplexer runs on it, and the device is not
/// tried. Where it cannot, the device decides: the multiplexer runs on it, or opening
/// fails. Nothing follows either.
pub proof fn law_opening_takes_the_socket_or_the_device(
    first: XsOpening,
    connected: bool,
    second: XsOpening,
    opened: bool,
    third: XsOpening,
)
    requires
        call_ensures(XsOpening::next, (&first, connected), second),
        call_ensures(XsOpening::next, (&second, opened), third),
    ensures
        first is Connect ==> {
            &&& second == XsOpening::Launch <==> connected
            &&& second == XsOpening::OpenDevice <==> !connected
            &&& third == XsOpening::Launch <==> connected || opened
            &&& third == XsOpening::Fail <==> !connected && !opened
        },
        first is OpenDevice ==> {
            &&& second == XsOpening::Launch <==> connected
            &&& second == XsOpening::Fail <==> !connected
        },
        first is Launch || first is Fail ==> second == first,
{
}

/// An interface holds the client that it was made of, and there is none without a
/// client.
pub proof fn law_interface_holds_its_client<C, E>(
    client: Result<C, E>,
    r: Result<XsTokio<C>, E>,
    xs: XsTokio<C>,
    held: &C,
)
    requires
        call_ensures(XsTokio::<C>::new::<E>, (client,), r),
        r matches Ok(made) ==> made == xs,
        call_ensures(XsTokio::<C>::client, (&xs,), held),
    ensures
        client matches Ok(c) ==> r is Ok && *held == c,
        client matches Err(e) ==> r == Err::<XsTokio<C>, E>(e),
{
}

} // verus!
