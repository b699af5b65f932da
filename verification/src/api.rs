//! The entry points of the service: its configuration, the reading of
//! inbound frames, and the fan-out to connected clients.

use vstd::prelude::*;

use crate::entry_event::{
    broadcast_response, json_request, Broadcast, Request, RequestView,
};
use crate::error::{Error, Malformed, TransportError};
use crate::json::{parsed_json, Json};
use crate::registry::{delivered, Registry};
use crate::views::ok_view;

pub mod base64_encoded_request;
pub mod get_room_properties;
pub mod room_wire;

verus! {

/// Where the service listens and which database it uses.
#[derive(Debug, PartialEq, Eq)]
pub struct Config {
    database_url: String,
    database: String,
    socket_address: [u8; 4],
    socket_port: u16,
}

/// What a [`Config`] holds, as contracts speak of it.
pub struct ConfigView {
    pub database_url: Seq<char>,
    pub database: Seq<char>,
    pub socket_address: Seq<u8>,
    pub socket_port: u16,
}

impl View for Config {
    type V = ConfigView;

    closed spec fn view(&self) -> ConfigView {
        ConfigView {
            database_url: self.database_url@,
            database: self.database@,
            socket_address: self.socket_address@,
            socket_port: self.socket_port,
        }
    }
}

impl Config {
    /// A configuration of these four settings.
    pub fn new(database_url: String, database: String, socket_address: [u8; 4], socket_port: u16)
        -> (config: Config)
        ensures
            config@ == (ConfigView {
                database_url: database_url@,
                database: database@,
                socket_address: socket_address@,
                socket_port,
            }),
    {
        Config { database_url, database, socket_address, socket_port }
    }

    /// Where the database is reached.
    pub fn database_url(&self) -> (url: &String)
        ensures
            url@ == self@.database_url,
    {
        &self.database_url
    }

    /// The name of the database.
    pub fn database(&self) -> (name: &String)
        ensures
            name@ == self@.database,
    {
        &self.database
    }

    /// The address that the service listens on.
    pub fn socket_address(&self) -> (address: [u8; 4])
        ensures
            address@ == self@.socket_address,
    {
        self.socket_address
    }

    /// The port that the service listens on.
    pub fn socket_port(&self) -> (port: u16)
        ensures
            port == self@.socket_port,
    {
        self.socket_port
    }
}

/// What the transport delivers: a frame of text, or a frame of any other
/// kind.
#[derive(Debug, PartialEq, Eq)]
pub enum Frame {
    Text(String),
    Other,
}

/// What a [`Frame`] holds, as contracts speak of it.
pub enum FrameView {
    Text(Seq<char>),
    Other,
}

impl View for Frame {
    type V = FrameView;

    open spec fn view(&self) -> FrameView {
        match self {
            Frame::Text(text) => FrameView::Text(text@),
            Frame::Other => FrameView::Other,
        }
    }
}

/// What the text of a frame decodes to: the request it stands for, or why
/// it stands for none.
pub open spec fn request_of_text(text: Seq<char>) -> Result<RequestView, Error> {
    match parsed_json(text) {
        None => Err(Error::MalformedFrame(Malformed::NotJson)),
        Some(tree) => match json_request(tree) {
            Some(request) => Ok(request),
            None => Err(Error::MalformedFrame(Malformed::UnknownShape)),
        },
    }
}

/// What a read from the transport decodes to.
pub open spec fn request_of_frame(msg: Result<FrameView, TransportError>) -> Result<
    RequestView,
    Error,
> {
    match msg {
        Err(_) => Err(Error::Transport),
        Ok(FrameView::Other) => Err(Error::MalformedFrame(Malformed::NotText)),
        Ok(FrameView::Text(text)) => request_of_text(text),
    }
}

/// Decodes the text of a frame. A frame is read whole or not at all.
pub fn parse_request(msg: &str) -> (r: Result<Request, Error>)
    ensures
        ok_view(r) == request_of_text(msg@),
{
    match Json::parse(msg) {
        None => Err(Error::MalformedFrame(Malformed::NotJson)),
        Some(tree) => match Request::from_json(&tree) {
            Some(request) => Ok(request),
            None => Err(Error::MalformedFrame(Malformed::UnknownShape)),
        },
    }
}

/// Decodes what a read from the transport delivered: the read may have
/// failed, and the frame may not be text.
pub fn parse_raw_request(msg: Result<Frame, TransportError>) -> (r: Result<Request, Error>)
    ensures
        ok_view(r) == request_of_frame(ok_view(msg)),
{
    match msg {
        Err(_) => Err(Error::Transport),
        Ok(Frame::Other) => Err(Error::MalformedFrame(Malformed::NotText)),
        Ok(Frame::Text(text)) => parse_request(text.as_str()),
    }
}

/// Puts the response that carries `msg` into the mailbox of every connected
/// client, the sender's own included.
pub fn notify_connected_clients(clients: &mut Registry, msg: Broadcast)
    ensures
        final(clients)@ == delivered(old(clients)@, broadcast_response(msg@)),
{
    let frame = msg.into_response();
    clients.broadcast(&frame);
}

} // verus!
