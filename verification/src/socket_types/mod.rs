pub mod dealer;
pub mod publish;
pub mod pull;
pub mod request_reply;
pub mod router;
pub mod subscribe;

pub use dealer::{dealer, Dealer, DealerBuilderBound};
pub use publish::{publish, Publish, PublishBuilderBound};
pub use pull::{pull, Pull, PullBuilderBound};
pub use request_reply::{
    reply, request, ReceivingReply, ReplyBuilderBound, RequestBuilderBound, RequestReceiver,
    RequestSender, SendingRequest,
};
pub use router::{router, Router, RouterBuilderBound};
pub use subscribe::{subscribe, Subscribe, SubscribeBuilderBound};
