//! Native value types the bridge passes to and receives from the parsing
//! engine, and the bridge's error taxonomy.

use vstd::prelude::*;

verus! {

/// Every way a bridge call can fail internally.
///
/// Decode and construction errors abort the current call; they are never
/// swallowed, and the boundary raises exactly one host-visible error for
/// them.
#[derive(Clone, Copy, Debug, PartialEq, Eq, Structural)]
pub enum BridgeError {
    /// A required host object field is absent (or a required reference is
    /// null).
    FieldNotFound,
    /// A host object field holds a value of the wrong type.
    TypeMismatch,
    /// A host string field does not hold valid Unicode text.
    EncodingError,
    /// A host-side class lookup or object construction failed: the bridge's
    /// schema has drifted from the host's object definitions.
    HostConstructionError,
    /// An unexpected native-side fault unrelated to the above.
    InternalFault,
}

impl BridgeError {
    /// The diagnostic text carried by the host-visible error raised for this
    /// failure.
    pub fn diagnostic(&self) -> (r: &'static str)
        ensures
            *self is FieldNotFound ==> r@ == "required host object field is absent"@,
            *self is TypeMismatch ==> r@ == "host object field has the wrong type"@,
            *self is EncodingError ==> r@ == "host string field is not valid Unicode"@,
            *self is HostConstructionError ==> r@ == "host-side class lookup or construction failed"@,
            *self is InternalFault ==> r@ == "unexpected internal fault in the native bridge"@,
    {
        match self {
            BridgeError::FieldNotFound => "required host object field is absent",
            BridgeError::TypeMismatch => "host object field has the wrong type",
            BridgeError::EncodingError => "host string field is not valid Unicode",
            BridgeError::HostConstructionError => "host-side class lookup or construction failed",
            BridgeError::InternalFault => "unexpected internal fault in the native bridge",
        }
    }
}

/// The parsing context handed to the engine: thread identity plus two
/// identifier sets whose ordering has no significance (membership only).
#[derive(Clone, Debug, PartialEq, Eq)]
pub struct PostParserContext {
    pub site_name: String,
    pub board_code: String,
    pub thread_id: u64,
    pub thread_posts: Vec<u64>,
    pub my_replies_in_thread: Vec<u64>,
}

/// Mathematical model of [`PostParserContext`]: the identifier collections
/// are sets, since only membership matters.
pub struct PostParserContextV {
    pub site_name: Seq<char>,
    pub board_code: Seq<char>,
    pub thread_id: u64,
    pub thread_posts: Set<u64>,
    pub my_replies_in_thread: Set<u64>,
}

impl View for PostParserContext {
    type V = PostParserContextV;

    open spec fn view(&self) -> PostParserContextV {
        PostParserContextV {
            site_name: self.site_name@,
            board_code: self.board_code@,
            thread_id: self.thread_id,
            thread_posts: self.thread_posts@.to_set(),
            my_replies_in_thread: self.my_replies_in_thread@.to_set(),
        }
    }
}

impl PostParserContext {
    /// Whether the thread holds a post with this identifier.
    pub fn is_thread_post(&self, id: u64) -> (r: bool)
        ensures
            r == self@.thread_posts.contains(id),
    {
        contains_id(&self.thread_posts, id)
    }

    /// Whether the calling user's own replies hold this identifier.
    pub fn is_my_reply(&self, id: u64) -> (r: bool)
        ensures
            r == self@.my_replies_in_thread.contains(id),
    {
        contains_id(&self.my_replies_in_thread, id)
    }
}

/// Membership in an identifier collection.
fn contains_id(ids: &Vec<u64>, id: u64) -> (r: bool)
    ensures
        r == ids@.to_set().contains(id),
{
    let mut i: usize = 0;
    while i < ids.len()
        invariant
            0 <= i <= ids@.len(),
            forall|j: int| 0 <= j < i ==> ids@[j] != id,
        decreases ids@.len() - i,
    {
        if ids[i] == id {
            assert(ids@.to_set().contains(id));
            return true;
        }
        i = i + 1;
    }
    assert(!ids@.contains(id));
    false
}

/// One raw post as the host hands it in: identifiers plus optional comment
/// text. An absent comment is a valid state distinct from an empty string.
#[derive(Clone, Debug, PartialEq, Eq)]
pub struct PostRaw {
    pub post_id: u64,
    pub post_sub_id: u64,
    pub comment: Option<String>,
}

/// Mathematical model of [`PostRaw`].
pub struct PostRawV {
    pub post_id: u64,
    pub post_sub_id: u64,
    pub comment: Option<Seq<char>>,
}

impl View for PostRaw {
    type V = PostRawV;

    open spec fn view(&self) -> PostRawV {
        PostRawV {
            post_id: self.post_id,
            post_sub_id: self.post_sub_id,
            comment: match self.comment {
                Some(ref c) => Some(c@),
                None => None,
            },
        }
    }
}

/// The ordered raw posts of one thread; result index `i` must correspond to
/// input index `i` end-to-end.
#[derive(Clone, Debug, PartialEq, Eq)]
pub struct ThreadRaw {
    pub posts: Vec<PostRaw>,
}

impl View for ThreadRaw {
    type V = Seq<PostRawV>;

    open spec fn view(&self) -> Seq<PostRawV> {
        self.posts@.map_values(|p: PostRaw| p@)
    }
}

/// One formatting/link annotation variant over a sub-range of parsed text.
#[derive(Clone, Debug, PartialEq, Eq)]
pub enum SpannableData {
    Quote { post_no: u64 },
    DeadQuote { post_no: u64 },
    UrlLink { link: String },
    BoardLink { board_code: String },
    SearchLink { board_code: String, search_query: String },
    ThreadLink { board_code: String, thread_no: u64, post_no: u64 },
    Spoiler,
    GreenText,
    BoldText,
    FontSize { size: String },
    FontWeight { weight: String },
    Monospace,
    TextForegroundColorRaw { color_hex: String },
    TextBackgroundColorRaw { color_hex: String },
    TextForegroundColorId { color_id: i32 },
    TextBackgroundColorId { color_id: i32 },
}

/// Mathematical model of [`SpannableData`].
pub enum SpannableDataV {
    Quote { post_no: u64 },
    DeadQuote { post_no: u64 },
    UrlLink { link: Seq<char> },
    BoardLink { board_code: Seq<char> },
    SearchLink { board_code: Seq<char>, search_query: Seq<char> },
    ThreadLink { board_code: Seq<char>, thread_no: u64, post_no: u64 },
    Spoiler,
    GreenText,
    BoldText,
    FontSize { size: Seq<char> },
    FontWeight { weight: Seq<char> },
    Monospace,
    TextForegroundColorRaw { color_hex: Seq<char> },
    TextBackgroundColorRaw { color_hex: Seq<char> },
    TextForegroundColorId { color_id: i32 },
    TextBackgroundColorId { color_id: i32 },
}

impl View for SpannableData {
    type V = SpannableDataV;

    open spec fn view(&self) -> SpannableDataV {
        match *self {
            SpannableData::Quote { post_no } => SpannableDataV::Quote { post_no },
            SpannableData::DeadQuote { post_no } => SpannableDataV::DeadQuote { post_no },
            SpannableData::UrlLink { ref link } => SpannableDataV::UrlLink { link: link@ },
            SpannableData::BoardLink { ref board_code } => SpannableDataV::BoardLink {
                board_code: board_code@,
            },
            SpannableData::SearchLink { ref board_code, ref search_query } => {
                SpannableDataV::SearchLink {
                    board_code: board_code@,
                    search_query: search_query@,
                }
            },
            SpannableData::ThreadLink { ref board_code, thread_no, post_no } => {
                SpannableDataV::ThreadLink { board_code: board_code@, thread_no, post_no }
            },
            SpannableData::Spoiler => SpannableDataV::Spoiler,
            SpannableData::GreenText => SpannableDataV::GreenText,
            SpannableData::BoldText => SpannableDataV::BoldText,
            SpannableData::FontSize { ref size } => SpannableDataV::FontSize { size: size@ },
            SpannableData::FontWeight { ref weight } => SpannableDataV::FontWeight {
                weight: weight@,
            },
            SpannableData::Monospace => SpannableDataV::Monospace,
            SpannableData::TextForegroundColorRaw { ref color_hex } => {
                SpannableDataV::TextForegroundColorRaw { color_hex: color_hex@ }
            },
            SpannableData::TextBackgroundColorRaw { ref color_hex } => {
                SpannableDataV::TextBackgroundColorRaw { color_hex: color_hex@ }
            },
            SpannableData::TextForegroundColorId { color_id } => {
                SpannableDataV::TextForegroundColorId { color_id }
            },
            SpannableData::TextBackgroundColorId { color_id } => {
                SpannableDataV::TextBackgroundColorId { color_id }
            },
        }
    }
}

/// One annotation over `(start, len)` of the parsed comment text.
#[derive(Clone, Debug, PartialEq, Eq)]
pub struct Spannable {
    pub start: u32,
    pub len: u32,
    pub spannable_data: SpannableData,
}

/// Mathematical model of [`Spannable`].
pub struct SpannableV {
    pub start: u32,
    pub len: u32,
    pub spannable_data: SpannableDataV,
}

impl View for Spannable {
    type V = SpannableV;

    open spec fn view(&self) -> SpannableV {
        SpannableV { start: self.start, len: self.len, spannable_data: self.spannable_data@ }
    }
}

/// A parsed comment: the original text, the engine's possibly rewritten
/// text, and the ordered annotations over the rewritten text.
#[derive(Clone, Debug, PartialEq, Eq)]
pub struct ParsedComment {
    pub original_text: String,
    pub parsed_text: String,
    pub spannables: Vec<Spannable>,
}

/// Mathematical model of [`ParsedComment`].
pub struct ParsedCommentV {
    pub original_text: Seq<char>,
    pub parsed_text: Seq<char>,
    pub spannables: Seq<SpannableV>,
}

impl View for ParsedComment {
    type V = ParsedCommentV;

    open spec fn view(&self) -> ParsedCommentV {
        ParsedCommentV {
            original_text: self.original_text@,
            parsed_text: self.parsed_text@,
            spannables: self.spannables@.map_values(|s: Spannable| s@),
        }
    }
}

/// The engine's result for one raw post; an absent comment signals "could
/// not parse" and must propagate as an explicit absent marker, never a
/// fault.
#[derive(Clone, Debug, PartialEq, Eq)]
pub struct ParsedPost {
    pub post_id: u64,
    pub post_sub_id: u64,
    pub post_comment_parsed: Option<ParsedComment>,
}

/// Mathematical model of [`ParsedPost`].
pub struct ParsedPostV {
    pub post_id: u64,
    pub post_sub_id: u64,
    pub post_comment_parsed: Option<ParsedCommentV>,
}

impl View for ParsedPost {
    type V = ParsedPostV;

    open spec fn view(&self) -> ParsedPostV {
        ParsedPostV {
            post_id: self.post_id,
            post_sub_id: self.post_sub_id,
            post_comment_parsed: match self.post_comment_parsed {
                Some(ref c) => Some(c@),
                None => None,
            },
        }
    }
}

/// The four-level ownership chain identifying one post uniquely, flattened
/// to its identifying fields: site name, board code, thread number, post
/// number and post sub-number.
#[derive(Clone, Debug, PartialEq, Eq)]
pub struct PostDescriptor {
    pub site_name: String,
    pub board_code: String,
    pub thread_no: u64,
    pub post_no: u64,
    pub post_sub_no: u64,
}

/// Mathematical model of [`PostDescriptor`].
pub struct PostDescriptorV {
    pub site_name: Seq<char>,
    pub board_code: Seq<char>,
    pub thread_no: u64,
    pub post_no: u64,
    pub post_sub_no: u64,
}

impl View for PostDescriptor {
    type V = PostDescriptorV;

    open spec fn view(&self) -> PostDescriptorV {
        PostDescriptorV {
            site_name: self.site_name@,
            board_code: self.board_code@,
            thread_no: self.thread_no,
            post_no: self.post_no,
            post_sub_no: self.post_sub_no,
        }
    }
}

} // verus!
