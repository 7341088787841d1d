//! The segments that a message is made of, as they are received and as they
//! are sent.
use crate::models::basic_type::OneBotBool;
use vstd::prelude::*;

verus! {

#[derive(Debug, Clone)]
pub struct Text {
    pub text: String,
}

#[derive(Debug, Clone)]
pub struct Face {
    pub id: String,
}

#[derive(Debug, Clone)]
pub enum ImageType {
    Flash,
}

#[derive(Debug, Clone)]
pub struct ImageRecv {
    pub file: String,
    pub kind: ImageType,
    pub url: String,
}

#[derive(Debug, Clone)]
pub struct ImageSend {
    pub file: String,
    pub kind: ImageType,
    pub cache: OneBotBool,
    pub proxy: OneBotBool,
    pub timeout: isize,
}

#[derive(Debug, Clone)]
pub struct RecordRecv {
    pub file: String,
    pub magic: OneBotBool,
    pub url: String,
}

#[derive(Debug, Clone)]
pub struct RecordSend {
    pub file: String,
    pub magic: OneBotBool,
    pub url: String,
    pub cache: OneBotBool,
    pub proxy: OneBotBool,
    pub timeout: isize,
}

#[derive(Debug, Clone)]
pub struct VideoRecv {
    pub file: String,
    pub url: String,
}

#[derive(Debug, Clone)]
pub struct VideoSend {
    pub file: String,
    pub cache: OneBotBool,
    pub proxy: OneBotBool,
    pub timeout: isize,
}

#[derive(Debug, Clone)]
pub enum AtQqType {
    All,
    Single(String),
}

#[derive(Debug, Clone)]
pub struct At {
    pub qq: AtQqType,
}

#[derive(Debug, Clone)]
pub struct Rps {
}

#[derive(Debug, Clone)]
pub struct Dice {
}

#[derive(Debug, Clone)]
pub struct Shake {
}

#[derive(Debug, Clone)]
pub struct PokeReceive {
    pub kind: isize,
    pub id: isize,
}

#[derive(Debug, Clone)]
pub struct PokeRecv {
    pub kind: isize,
    pub id: isize,
    pub name: String,
}

#[derive(Debug, Clone)]
pub struct AnonymousRecv {
    pub ignore: Option<OneBotBool>,
}

#[derive(Debug, Clone)]
pub struct ShareReceive {
    pub url: String,
    pub title: String,
    pub content: String,
    pub image: String,
}

#[derive(Debug, Clone)]
pub struct ShareRecv {
    pub url: String,
    pub title: String,
    pub content: Option<String>,
    pub image: Option<String>,
}

#[derive(Debug, Clone)]
pub enum ContactType {
    Group { id: String },
    Qq { id: String },
}

#[derive(Debug, Clone)]
pub struct LocationRecv {
    pub lat: String,
    pub lon: String,
    pub title: String,
    pub content: String,
}

#[derive(Debug, Clone)]
pub struct LocationSend {
    pub lat: String,
    pub lon: String,
    pub title: Option<String>,
    pub content: Option<String>,
}

#[derive(Debug, Clone)]
pub enum Music {
    Netease {
        id: String,
    },
    Qq {
        id: String,
    },
    Custom {
        url: String,
        audio: String,
        title: String,
    },
}

#[derive(Debug, Clone)]
pub struct Reply {
    pub id: String,
}

#[derive(Debug, Clone)]
pub struct Forward {
    pub id: String,
}

#[derive(Debug, Clone)]
pub struct NodeRecv {
    pub id: String,
}

#[derive(Debug, Clone)]
pub struct NodeSend {
}

#[derive(Debug, Clone)]
pub struct NodeMergeForwardCq {
    pub user_id: String,
    pub nickname: String,
    pub content: CqMsg,
}

#[derive(Debug, Clone)]
pub struct NodeMergeForwardJson {
    pub user_id: String,
    pub nickname: String,
    pub content: JsonMsgSend,
}

#[derive(Debug, Clone)]
pub struct Xml {
    pub data: String,
}

#[derive(Debug, Clone)]
pub struct Json {
    pub data: String,
}

#[derive(Debug, Clone)]
pub enum Send {
    Text(Text),
    Face(Face),
    Image(ImageSend),
    Record(RecordSend),
    Video(VideoSend),
    At(At),
    Rps(Rps),
    Dice(Dice),
    Shake(Shake),
    Poke(PokeRecv),
    Anonymous(AnonymousRecv),
    Share(ShareRecv),
    Contact(ContactType),
    Location(LocationSend),
    Music(Music),
    Reply(Reply),
    Forward(Forward),
    NodeSend(NodeSend),
    Xml(Xml),
    Json(Json),
}

#[derive(Debug, Clone)]
pub enum Recv {
    Text(Text),
    Face(Face),
    Image(ImageRecv),
    Record(RecordRecv),
    Video(VideoRecv),
    At(At),
    Rps(Rps),
    Dice(Dice),
    Shake(Shake),
    Poke(PokeRecv),
    Anonymous(AnonymousRecv),
    Share(ShareRecv),
    Contact(ContactType),
    Location(LocationRecv),
    Music(Music),
    Reply(Reply),
    Forward(Forward),
    NodeSend(NodeRecv),
    Xml(Xml),
    Json(Json),
}

#[derive(Debug, Clone)]
pub struct CqMsg(pub String);

#[derive(Debug, Clone)]
pub enum JsonMsgSend {
    Segment(Send),
    Array(Vec<Send>),
}

#[derive(Debug, Clone)]
pub enum JsonMsgRecv {
    Segment(Recv),
    Array(Vec<Recv>),
}

} // verus!
