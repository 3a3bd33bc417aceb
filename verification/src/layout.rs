//! What the bridge asks of the engine's answers before it relies on them.
use vstd::prelude::*;
use tree_sitter::Node;
use crate::engine::{
    engine_child_count, engine_end_byte, engine_end_position, engine_named_child_count,
    engine_start_byte, engine_start_position,
};
use crate::error::BridgeError;
use crate::position::{Point, Range, ENGINE_MAX};

verus! {

/// What `check_layout` answers.
pub open spec fn layout_verdict_of(
    start_byte: usize,
    end_byte: usize,
    start_point: Point,
    end_point: Point,
    child_count: u32,
    named_child_count: usize,
) -> Result<(), BridgeError> {
    if start_byte > end_byte || !start_point.le(end_point) {
        Err(BridgeError::InvertedRange)
    } else if end_byte > ENGINE_MAX || !start_point.fits_engine() || !end_point.fits_engine() {
        Err(BridgeError::OutOfEngineRange)
    } else if named_child_count > child_count {
        Err(BridgeError::CountMismatch)
    } else {
        Ok(())
    }
}

/// Can the bridge hand out a node that the engine describes so? It can where
/// the node ends at or after its start, in bytes and in points, lies within
/// the engine's 32 bits, and has no more named children than children.
pub fn check_layout(
    start_byte: usize,
    end_byte: usize,
    start_point: Point,
    end_point: Point,
    child_count: u32,
    named_child_count: usize,
) -> (r: Result<(), BridgeError>)
    ensures
        r == layout_verdict_of(
            start_byte,
            end_byte,
            start_point,
            end_point,
            child_count,
            named_child_count,
        ),
{
    if start_byte > end_byte || !start_point.at_or_before(&end_point) {
        Err(BridgeError::InvertedRange)
    } else if end_byte > ENGINE_MAX || !start_point.within_engine() || !end_point.within_engine() {
        Err(BridgeError::OutOfEngineRange)
    } else if named_child_count > child_count as usize {
        Err(BridgeError::CountMismatch)
    } else {
        Ok(())
    }
}

/// The child that the engine found at an index below the number of children
/// it reported; that it found none is a failure of the engine.
pub fn require_child<T>(found: Option<T>) -> (r: Result<T, BridgeError>)
    ensures
        r == match found {
            Some(child) => Ok::<T, BridgeError>(child),
            None => Err::<T, BridgeError>(BridgeError::MissingChild),
        },
{
    match found {
        Some(child) => Ok(child),
        None => Err(BridgeError::MissingChild),
    }
}

/// The answer to a question about named nodes; that the answer is an
/// anonymous node is a failure of the engine.
pub fn require_named<T>(answer: T, named: bool) -> (r: Result<T, BridgeError>)
    ensures
        r == if named {
            Ok::<T, BridgeError>(answer)
        } else {
            Err::<T, BridgeError>(BridgeError::AnonymousResult)
        },
{
    if named {
        Ok(answer)
    } else {
        Err(BridgeError::AnonymousResult)
    }
}

/// Where the engine says that a node lies.
pub open spec fn engine_range(node: Node) -> Range {
    Range {
        start_byte: engine_start_byte(node),
        end_byte: engine_end_byte(node),
        start_point: engine_start_position(node),
        end_point: engine_end_position(node),
    }
}

/// The verdict on a node, from what the engine says of it.
pub open spec fn layout_verdict(node: Node) -> Result<(), BridgeError> {
    layout_verdict_of(
        engine_start_byte(node),
        engine_end_byte(node),
        engine_start_position(node),
        engine_end_position(node),
        engine_child_count(node),
        engine_named_child_count(node),
    )
}

} // verus!
