//! The channel through which one side of a connection hands its stream to the other.

use vstd::prelude::*;
use tokio::net::TcpStream;
use tokio::sync::oneshot::{Receiver, Sender};

verus! {

/// A connected TCP socket of tokio. Nothing is said of what is inside.
#[verifier::external_type_specification]
#[verifier::external_body]
pub struct ExTcpStream(tokio::net::TcpStream);

/// The sending end of a tokio oneshot channel. Nothing is said of what is inside.
#[verifier::external_type_specification]
#[verifier::external_body]
#[verifier::reject_recursive_types(T)]
pub struct ExSender<T>(tokio::sync::oneshot::Sender<T>);

/// The receiving end of a tokio oneshot channel. Nothing is said of what is inside.
#[verifier::external_type_specification]
#[verifier::external_body]
#[verifier::reject_recursive_types(T)]
pub struct ExReceiver<T>(tokio::sync::oneshot::Receiver<T>);

/// What a tokio oneshot receiver yields when its sending end is gone. The declaration of the
/// receiver needs it. Nothing is said of what is inside.
#[verifier::external_type_specification]
#[verifier::external_body]
pub struct ExRecvError(tokio::sync::oneshot::error::RecvError);

/// Whether two ends belong to one channel: what is sent on `sx` is what `rx` receives.
pub uninterp spec fn connected(sx: Sender<TcpStream>, rx: Receiver<TcpStream>) -> bool;

/// Makes a channel with `tokio::sync::oneshot::channel`. The two ends share one slot, so they are
/// the ends of one channel; nothing else is claimed of them.
#[verifier::external_body]
pub(crate) fn stream_channel() -> (r: (Sender<TcpStream>, Receiver<TcpStream>))
    ensures
        connected(r.0, r.1),
{
    tokio::sync::oneshot::channel()
}

} // verus!
