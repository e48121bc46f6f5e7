use vstd::prelude::*;
use crate::common::TableData;
use crate::html::table_cells_of;
use crate::screener_type::ScreenerType;
use crate::signal_type::SignalType;
use crate::order_type::{OrderType, Ordering};
use crate::request::{build_url, spec_build, UrlPart, UrlPartV};
use crate::table::{extract_table, spec_apply_policy, ExtractError, ExtractionPolicy};

verus! {

/// A screener configuration: the page kind, an optional filter signal, an
/// optional sort field, and the sort direction.
///
/// `to_url` serializes the configuration to the request URL; the surrounding
/// application fetches that URL and hands the page body to the table
/// extractor.
pub struct Screener {
    pub base_type: ScreenerType,
    pub signal_type: Option<SignalType>,
    pub order_type: Option<OrderType>,
    pub ordering: Ordering,
}

impl Screener {
    /// The ordered query parts of the configuration: a mandatory `v` part,
    /// an optional `s` part, and an optional `o` part whose token is the
    /// direction prefix followed by the sort field.
    pub open spec fn spec_parts(self) -> Seq<UrlPartV> {
        seq![UrlPartV { name: "v"@, token: self.base_type.spec_token(), optional: false }]
            + (match self.signal_type {
            Some(s) => seq![UrlPartV { name: "s"@, token: s.spec_token(), optional: true }],
            None => Seq::empty(),
        }) + (match self.order_type {
            Some(o) => seq![
                UrlPartV {
                    name: "o"@,
                    token: self.ordering.spec_token() + o.spec_token(),
                    optional: true,
                },
            ],
            None => Seq::empty(),
        })
    }

    /// The URL of the configuration, as a mathematical value.
    pub open spec fn spec_url(self) -> Seq<char> {
        spec_build("https://finviz.com/screener.ashx"@, self.spec_parts())
    }

    /// The extraction rules of the endpoint: drop the header row and the
    /// leading non-data cell, keep rows with at least one retained cell, trim
    /// cell text.
    pub open spec fn spec_policy() -> ExtractionPolicy {
        ExtractionPolicy {
            skip_header_row: true,
            leading_cells_to_skip: 1,
            min_cells: 1,
            split_last_cell_link: false,
            trim_cells: true,
        }
    }

    /// Creates a new `Screener` for the given page kind, with no signal, no
    /// sort field, and ascending order.
    pub fn new(base_type: ScreenerType) -> (r: Self)
        ensures
            r == (Screener {
                base_type,
                signal_type: None::<SignalType>,
                order_type: None::<OrderType>,
                ordering: Ordering::Ascending,
            }),
    {
        Self { base_type, signal_type: None, order_type: None, ordering: Ordering::Ascending }
    }

    /// Sets the filter signal of the screener.
    pub fn set_signal(&mut self, signal_type: SignalType) -> (r: &mut Self)
        ensures
            *r == (Screener { signal_type: Some(signal_type), ..*old(self) }),
            *final(self) == *final(r),
    {
        self.signal_type = Some(signal_type);
        self
    }

    /// Sets the sort field of the screener, with ascending direction kept as
    /// it is.
    pub fn set_order(&mut self, order_type: OrderType) -> (r: &mut Self)
        ensures
            *r == (Screener { order_type: Some(order_type), ..*old(self) }),
            *final(self) == *final(r),
    {
        self.order_type = Some(order_type);
        self
    }

    /// Sets the sort field of the screener together with descending
    /// direction.
    pub fn set_descending_order(&mut self, order_type: OrderType) -> (r: &mut Self)
        ensures
            *r == (Screener {
                order_type: Some(order_type),
                ordering: Ordering::Descending,
                ..*old(self)
            }),
            *final(self) == *final(r),
    {
        self.order_type = Some(order_type);
        self.ordering = Ordering::Descending;
        self
    }

    /// Serializes the configuration to its request URL.
    pub fn to_url(&self) -> (r: String)
        ensures
            r@ == self.spec_url(),
    {
        let mut parts: Vec<UrlPart> = Vec::new();
        parts.push(
            UrlPart { name: "v".to_owned(), token: self.base_type.token().to_owned(), optional: false },
        );
        match &self.signal_type {
            Some(s) => {
                parts.push(
                    UrlPart { name: "s".to_owned(), token: s.token().to_owned(), optional: true },
                );
            },
            None => {},
        }
        match &self.order_type {
            Some(o) => {
                let mut token = self.ordering.token().to_owned();
                token.append(o.token());
                parts.push(UrlPart { name: "o".to_owned(), token, optional: true });
            },
            None => {},
        }
        proof {
            assert(parts.deep_view() =~= self.spec_parts());
        }
        build_url("https://finviz.com/screener.ashx", &parts)
    }

    /// Extracts the screener grid from raw page text.
    pub fn extract(&self, body: &str) -> (r: Result<TableData, ExtractError>)
        ensures
            match r {
                Ok(grid) => table_cells_of(body@, "table.styled-table-new"@) matches Some(rows)
                    && grid.deep_view() == spec_apply_policy(rows, Self::spec_policy()),
                Err(e) => e == ExtractError::TableNotFound && table_cells_of(
                    body@,
                    "table.styled-table-new"@,
                ) is None,
            },
    {
        let p = ExtractionPolicy {
            skip_header_row: true,
            leading_cells_to_skip: 1,
            min_cells: 1,
            split_last_cell_link: false,
            trim_cells: true,
        };
        extract_table(body, "table.styled-table-new", &p)
    }
}

impl Default for Screener {
    /// The default screener asks for the overview page.
    fn default() -> (r: Self)
        ensures
            r == (Screener {
                base_type: ScreenerType::Overview,
                signal_type: None::<SignalType>,
                order_type: None::<OrderType>,
                ordering: Ordering::Ascending,
            }),
    {
        Self::new(ScreenerType::Overview)
    }
}

/// An ascending sort direction leaves the sort field's token unprefixed:
/// no `-` sign and no other character stands before it.
pub proof fn lemma_ascending_order_unprefixed(o: OrderType)
    ensures
        Ordering::Ascending.spec_token() + o.spec_token() == o.spec_token(),
{
    reveal_strlit("");
    assert(Ordering::Ascending.spec_token() + o.spec_token() =~= o.spec_token());
}

} // verus!
