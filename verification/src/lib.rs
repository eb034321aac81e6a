//! Asynchronous ZeroMQ sockets: the framing of multipart messages into the
//! segments a socket sends, the decisions taken each time a socket is
//! polled, and the builders that open, bind and connect sockets. The event
//! loop that waits for a socket's readiness drives these from outside.

pub mod comm;
pub mod error;
pub mod framing;
pub mod message;
pub mod poll;
pub mod pull_stream;
pub mod push_sink;
pub mod socket;
pub mod socket_builder;
pub mod socket_types;
pub mod zmq_api;

pub use zmq::{Context, Message};

pub use error::{Result, TmqError};
pub use message::Multipart;
pub use socket::{AsZmqSocket, SocketKind, ZmqSocket};
pub use socket_builder::SocketBuilder;
pub use socket_types::{
    dealer, publish, pull, reply, request, router, subscribe, Dealer, DealerBuilderBound, Publish,
    PublishBuilderBound, Pull, PullBuilderBound, ReceivingReply, ReplyBuilderBound,
    RequestBuilderBound, RequestReceiver, RequestSender, Router, RouterBuilderBound,
    SendingRequest, Subscribe, SubscribeBuilderBound,
};
