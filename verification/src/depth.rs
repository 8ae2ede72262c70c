use vstd::prelude::*;

verus! {

/// One resting liquidity level: price and size kept as the exact decimal
/// strings the venue sent (never converted to binary floating point).
#[derive(Debug, PartialEq, Eq)]
pub struct PriceLevel {
    pub price: String,
    pub size: String,
}

/// Mathematical model of a price level: the two decimal strings.
pub ghost struct PriceLevelV {
    pub price: Seq<char>,
    pub size: Seq<char>,
}

impl View for PriceLevel {
    type V = PriceLevelV;

    open spec fn view(&self) -> PriceLevelV {
        PriceLevelV { price: self.price@, size: self.size@ }
    }
}

/// One snapshot of the two book sides, levels in the exact order the venue
/// delivered them (best first, never re-sorted).
#[derive(Debug, PartialEq, Eq)]
pub struct DepthUpdate {
    pub last_update_id: u64,
    pub bids: Vec<PriceLevel>,
    pub asks: Vec<PriceLevel>,
}

/// Mathematical model of a depth update.
pub ghost struct DepthUpdateV {
    pub last_update_id: nat,
    pub bids: Seq<PriceLevelV>,
    pub asks: Seq<PriceLevelV>,
}

/// The level-by-level model of a sequence of price levels.
pub open spec fn levels_view(s: Seq<PriceLevel>) -> Seq<PriceLevelV> {
    s.map_values(|p: PriceLevel| p@)
}

impl View for DepthUpdate {
    type V = DepthUpdateV;

    open spec fn view(&self) -> DepthUpdateV {
        DepthUpdateV {
            last_update_id: self.last_update_id as nat,
            bids: levels_view(self.bids@),
            asks: levels_view(self.asks@),
        }
    }
}

/// One multiplexed stream message: which subscribed feed produced it, and
/// the depth payload it carries.
#[derive(Debug, PartialEq, Eq)]
pub struct StreamEnvelope {
    pub stream_name: String,
    pub payload: DepthUpdate,
}

/// Mathematical model of a stream envelope.
pub ghost struct StreamEnvelopeV {
    pub stream_name: Seq<char>,
    pub payload: DepthUpdateV,
}

impl View for StreamEnvelope {
    type V = StreamEnvelopeV;

    open spec fn view(&self) -> StreamEnvelopeV {
        StreamEnvelopeV { stream_name: self.stream_name@, payload: self.payload@ }
    }
}

impl StreamEnvelope {
    /// The envelope invariant: the feed name is never empty.
    pub open spec fn wf(&self) -> bool {
        self.stream_name@.len() > 0
    }
}

/// Why a frame failed to decode.
#[derive(Debug, Clone, Copy, PartialEq, Eq)]
pub enum DecodeReason {
    /// The frame text is not a well-formed structured document.
    NotJson,
    /// The document is not an object at top level.
    NotObject,
    /// The `stream` field is absent.
    MissingStream,
    /// The `stream` field is not a string, or is empty.
    BadStream,
    /// The `data` field is absent.
    MissingData,
    /// The `data` field is not an object.
    BadData,
    /// `lastUpdateId` is absent or not a non-negative integer in range.
    BadUpdateId,
    /// `bids` is absent or not a sequence of two-element price/size pairs.
    BadBids,
    /// `asks` is absent or not a sequence of two-element price/size pairs.
    BadAsks,
}

/// The fatal errors of the receive loop.
#[derive(Debug, Clone, Copy, PartialEq, Eq)]
pub enum StreamError {
    /// The transport could not be established or was lost mid-stream.
    ConnectionError,
    /// A non-text frame arrived where only text was expected.
    UnexpectedFrameKind,
    /// The frame's structure did not match the expected message shape.
    DecodeError(DecodeReason),
}

} // verus!
