//! The data of requests and responses.

pub mod messages;

pub use messages::{
    Contact, Interactive, InteractiveAction, InteractiveBody, InteractiveButton,
    InteractiveButtonReply, InteractiveButtonType, InteractiveButtons, InteractiveType,
    MarkMessageAsRead, MediaType, SendContactMessage, SendInteractiveMessage, SendMediaMessage,
    SendMessageResponse, SendReactionMessage, SendTextMessage,
};
