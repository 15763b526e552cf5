//! Polymarket Gamma API payloads.
use vstd::prelude::*;

verus! {

/// Series information
#[derive(Debug, Clone)]
pub struct PolymarketSeries {
    pub id: String,
    pub title: Option<String>,
    pub slug: Option<String>,
    pub description: Option<String>,
}

/// Category information
#[derive(Debug, Clone)]
pub struct PolymarketCategory {
    pub id: String,
    pub name: Option<String>,
    pub slug: Option<String>,
}

/// Collection information
#[derive(Debug, Clone)]
pub struct PolymarketCollection {
    pub id: String,
    pub title: Option<String>,
    pub slug: Option<String>,
}

/// Tag information
#[derive(Debug, Clone)]
pub struct PolymarketTag {
    pub id: String,
    pub label: Option<String>,
    pub slug: Option<String>,
}

/// Optimized image metadata
#[derive(Debug, Clone)]
pub struct ImageOptimized {
    pub url: Option<String>,
    pub width: Option<u32>,
    pub height: Option<u32>,
    pub format: Option<String>,
}


} // verus!
