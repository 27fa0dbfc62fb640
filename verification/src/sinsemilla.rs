//! What the Sinsemilla hash gadget takes from the curve gadgets: messages
//! made of pieces that each fit in a base field element.

pub mod message;
