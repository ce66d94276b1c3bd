//! The payloads of messages: what is sent to the API and what it answers.
//!
//! The client hands these on as they are and never looks into them.

use vstd::prelude::*;

verus! {

/// Kind of a media attachment.
#[derive(Debug, Clone, PartialEq, Eq)]
pub enum MediaType {
    Audio,
    Document,
    Image,
    Sticker,
    Video,
}

/// A text message.
#[derive(Debug, Clone)]
pub struct SendTextMessage {
    pub to: String,
    pub text: String,
    pub preview_url: Option<bool>,
}

/// A message that carries a media attachment, given by its id or by a link.
#[derive(Debug, Clone)]
pub struct SendMediaMessage {
    pub to: String,
    pub media_type: MediaType,
    pub media_id: Option<String>,
    pub media_url: Option<String>,
    pub caption: Option<String>,
    pub filename: Option<String>,
}

/// Part of a template that parameters are for.
#[derive(Debug, Clone, PartialEq, Eq)]
pub enum ComponentType {
    Header,
    Body,
    Button,
    Footer,
}

/// A date and time parameter of a template.
#[derive(Debug, Clone)]
pub struct DateTime {
    pub fallback_value: String,
}

/// An image given by a link.
#[derive(Debug, Clone)]
pub struct Image {
    pub link: String,
}

/// A document given by a link.
#[derive(Debug, Clone)]
pub struct Document {
    pub link: String,
    pub filename: Option<String>,
}

/// A video given by a link.
#[derive(Debug, Clone)]
pub struct Video {
    pub link: String,
}

/// Kind of an interactive message.
#[derive(Debug, Clone, PartialEq, Eq)]
pub enum InteractiveType {
    Button,
    List,
    Product,
    ProductList,
    Flow,
    CtaUrl,
    LocationRequestMessage,
}

/// Body text of an interactive message.
#[derive(Debug, Clone)]
pub struct InteractiveBody {
    pub text: String,
}

/// Kind of a button.
#[derive(Debug, Clone, PartialEq, Eq)]
pub enum InteractiveButtonType {
    Reply,
    Url,
}

/// What a reply button sends back.
#[derive(Debug, Clone)]
pub struct InteractiveButtonReply {
    pub id: String,
    pub title: String,
}

/// A button of an interactive message.
#[derive(Debug, Clone)]
pub struct InteractiveButton {
    pub kind: InteractiveButtonType,
    pub reply: Option<InteractiveButtonReply>,
    pub url: Option<String>,
    pub title: Option<String>,
}

/// The buttons of an interactive message.
#[derive(Debug, Clone)]
pub struct InteractiveButtons {
    pub buttons: Vec<InteractiveButton>,
}

/// A row of a list section.
#[derive(Debug, Clone)]
pub struct InteractiveSectionRow {
    pub id: String,
    pub title: String,
    pub description: Option<String>,
}

/// A section of a list message.
#[derive(Debug, Clone)]
pub struct InteractiveSection {
    pub title: Option<String>,
    pub rows: Vec<InteractiveSectionRow>,
}

/// The sections of a list message.
#[derive(Debug, Clone)]
pub struct InteractiveSections {
    pub sections: Vec<InteractiveSection>,
}

/// The products of a product list, by their retailer ids.
#[derive(Debug, Clone)]
pub struct InteractiveProductRetailers {
    pub product_retailers: Vec<String>,
}

/// A product catalog.
#[derive(Debug, Clone)]
pub struct InteractiveCatalog {
    pub catalog_id: String,
}

/// A flow to open, with the data to start it with.
#[derive(Debug, Clone)]
pub struct InteractiveFlow {
    pub id: String,
    pub data: Option<InteractiveFlowData>,
}

/// The screen and the data a flow starts with.
#[derive(Debug, Clone)]
pub struct InteractiveFlowData {
    pub screen: Option<String>,
    pub data: Option<serde_json::Value>,
}

/// What an interactive message offers.
#[derive(Debug, Clone)]
pub enum InteractiveAction {
    Buttons(InteractiveButtons),
    Sections(InteractiveSections),
    ProductRetailers(InteractiveProductRetailers),
    Catalog(InteractiveCatalog),
    Flow(InteractiveFlowAction),
    LocationRequest(InteractiveLocationRequestAction),
}

/// The action that opens a flow.
#[derive(Debug, Clone)]
pub struct InteractiveFlowAction {
    pub name: String,
    pub parameters: InteractiveFlowParameters,
}

/// Parameters of the action that opens a flow.
#[derive(Debug, Clone)]
pub struct InteractiveFlowParameters {
    pub flow_token: String,
    pub flow_id: String,
    pub flow_cta: String,
}

/// The action that asks for the location of the user.
#[derive(Debug, Clone)]
pub struct InteractiveLocationRequestAction {
    pub name: String,
    pub button: String,
}

/// Kind of the header of an interactive message.
#[derive(Debug, Clone, PartialEq, Eq)]
pub enum InteractiveHeaderType {
    Text,
    Video,
    Image,
    Document,
}

/// Header of an interactive message.
#[derive(Debug, Clone)]
pub enum InteractiveHeader {
    Text {
        text: String,
    },
    Video {
        video: InteractiveHeaderMedia,
    },
    Image {
        image: InteractiveHeaderMedia,
    },
    Document {
        document: InteractiveHeaderDocument,
    },
}

/// A header image or video, given by a link.
#[derive(Debug, Clone)]
pub struct InteractiveHeaderMedia {
    pub link: String,
}

/// A header document, given by a link.
#[derive(Debug, Clone)]
pub struct InteractiveHeaderDocument {
    pub link: String,
    pub filename: Option<String>,
}

/// Footer text of an interactive message.
#[derive(Debug, Clone)]
pub struct InteractiveFooter {
    pub text: String,
}

/// Content of an interactive message.
#[derive(Debug, Clone)]
pub struct Interactive {
    pub kind: InteractiveType,
    pub body: InteractiveBody,
    pub action: InteractiveAction,
    pub header: Option<InteractiveHeader>,
    pub footer: Option<InteractiveFooter>,
    pub flow: Option<InteractiveFlow>,
}

/// An interactive message.
#[derive(Debug, Clone)]
pub struct SendInteractiveMessage {
    pub to: String,
    pub interactive: Interactive,
}

/// Postal address of a contact.
#[derive(Debug, Clone)]
pub struct ContactAddress {
    pub street: Option<String>,
    pub city: Option<String>,
    pub state: Option<String>,
    pub zip: Option<String>,
    pub country: Option<String>,
    pub country_code: Option<String>,
    pub kind: Option<String>,
}

/// Email address of a contact.
#[derive(Debug, Clone)]
pub struct ContactEmail {
    pub email: String,
    pub kind: String,
}

/// Name of a contact.
#[derive(Debug, Clone)]
pub struct ContactName {
    pub formatted_name: String,
    pub first_name: String,
    pub last_name: Option<String>,
    pub middle_name: Option<String>,
    pub suffix: Option<String>,
    pub prefix: Option<String>,
}

/// Organisation of a contact.
#[derive(Debug, Clone)]
pub struct ContactOrg {
    pub company: Option<String>,
    pub department: Option<String>,
    pub title: Option<String>,
}

/// Phone number of a contact.
#[derive(Debug, Clone)]
pub struct ContactPhone {
    pub phone: String,
    pub kind: String,
    pub wa_id: Option<String>,
}

/// Website of a contact.
#[derive(Debug, Clone)]
pub struct ContactUrl {
    pub url: String,
    pub kind: String,
}

/// A contact card.
#[derive(Debug, Clone)]
pub struct Contact {
    pub addresses: Option<Vec<ContactAddress>>,
    pub birthday: Option<String>,
    pub emails: Option<Vec<ContactEmail>>,
    pub name: ContactName,
    pub org: Option<ContactOrg>,
    pub phones: Option<Vec<ContactPhone>>,
    pub urls: Option<Vec<ContactUrl>>,
}

/// A message that carries contact cards.
#[derive(Debug, Clone)]
pub struct SendContactMessage {
    pub to: String,
    pub contacts: Vec<Contact>,
}

/// A reaction to a message.
#[derive(Debug, Clone)]
pub struct SendReactionMessage {
    pub to: String,
    pub message_id: String,
    pub emoji: String,
}

/// Marks a message as read.
#[derive(Debug, Clone)]
pub struct MarkMessageAsRead {
    pub message_id: String,
}

/// Answer of the API to a sent message.
#[derive(Debug, Clone)]
pub struct SendMessageResponse {
    pub messaging_product: String,
    pub contacts: Vec<MessageResponseContact>,
    pub messages: Vec<MessageResponseMessage>,
}

/// A recipient as the API resolved it.
#[derive(Debug, Clone)]
pub struct MessageResponseContact {
    pub input: String,
    pub wa_id: String,
}

/// A message as the API accepted it.
#[derive(Debug, Clone)]
pub struct MessageResponseMessage {
    pub id: String,
}

/// A message that asks the user for an address.
#[derive(Debug, Clone)]
pub struct SendAddressMessage {
    pub to: String,
    pub request_type: Option<String>,
    pub button_text: Option<String>,
}

/// A call-to-action button that opens a link.
#[derive(Debug, Clone)]
pub struct InteractiveCtaUrlButton {
    pub kind: String,
    pub title: String,
    pub url: String,
}

/// An interactive message with call-to-action buttons.
#[derive(Debug, Clone)]
pub struct SendInteractiveCtaUrlButtonMessage {
    pub to: String,
    pub body: String,
    pub buttons: Vec<InteractiveCtaUrlButton>,
    pub header_text: Option<String>,
    pub footer_text: Option<String>,
}

/// A message that opens a flow.
#[derive(Debug, Clone)]
pub struct InteractiveFlowParams {
    pub to: String,
    pub flow_id: String,
    pub flow_token: Option<String>,
    pub flow_cta: Option<String>,
    pub flow_title: Option<String>,
    pub flow_description: Option<String>,
    pub screen: Option<String>,
    pub data: Option<serde_json::Value>,
}

/// A message that asks the user for a location.
#[derive(Debug, Clone)]
pub struct SendInteractiveLocationRequestParams {
    pub to: String,
    pub body: String,
    pub button_text: Option<String>,
    pub footer_text: Option<String>,
}

/// The message that a reply refers to.
#[derive(Debug, Clone)]
pub struct MessageContext {
    pub message_id: String,
}

} // verus!
