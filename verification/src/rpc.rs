//! The node's RPC helpers: the sum-storage queries and the silly RPC.
use vstd::prelude::*;
use std::marker::PhantomData;
use std::sync::Arc;

verus! {

/// The code of the server error that failed runtime queries answer with.
pub const SERVER_ERROR_CODE: i64 = 9876;

/// An RPC error: a code, a message and optional detail.
#[derive(Debug)]
pub struct RpcError {
    pub code: i64,
    pub message: String,
    pub data: Option<String>,
}

/// Mathematical value of an [`RpcError`].
pub struct RpcErrorView {
    pub code: i64,
    pub message: Seq<char>,
    pub data: Option<Seq<char>>,
}

impl View for RpcError {
    type V = RpcErrorView;

    open spec fn view(&self) -> RpcErrorView {
        RpcErrorView {
            code: self.code,
            message: self.message@,
            data: match self.data {
                Some(d) => Some(d@),
                None => None,
            },
        }
    }
}

/// The message of failed runtime queries.
pub open spec fn failure_message() -> Seq<char> {
    seq!['S', 'o', 'm', 'e', 't', 'h', 'i', 'n', 'g', ' ', 'w', 'r', 'o', 'n', 'g']
}

/// The answer to a query whose runtime call gave `result`, with any error
/// described by its debug text: the value, or a server error carrying that text.
pub open spec fn spec_answer(result: Result<u32, Seq<char>>) -> Result<u32, RpcErrorView> {
    match result {
        Ok(v) => Ok(v),
        Err(debug) => Err(RpcErrorView { code: SERVER_ERROR_CODE, message: failure_message(), data: Some(debug) }),
    }
}

/// The RPC over sum storage, holding the client it queries the runtime through.
pub struct SumStorage<C, M> {
    pub client: Arc<C>,
    pub marker: PhantomData<M>,
}

/// Errors of the sum-storage runtime queries.
#[derive(Clone, Copy, Debug, PartialEq, Eq, Structural)]
pub enum Error {
    RuntimeError,
    ProductError,
    SumError,
}

/// The code of each error.
pub open spec fn error_code(e: Error) -> i64 {
    match e {
        Error::RuntimeError => 1,
        Error::ProductError => 2,
        Error::SumError => 3,
    }
}

impl From<Error> for i64 {
    fn from(e: Error) -> (r: i64) {
        match e {
            Error::RuntimeError => 1,
            Error::ProductError => 2,
            Error::SumError => 3,
        }
    }
}

impl vstd::std_specs::convert::FromSpecImpl<Error> for i64 {
    open spec fn obeys_from_spec() -> bool {
        true
    }

    open spec fn from_spec(e: Error) -> i64 {
        error_code(e)
    }
}

/// The block a query runs at: the one asked for, else the best block.
pub fn block_at<H>(at: Option<H>, best: H) -> (r: H)
    ensures
        r == match at {
            Some(h) => h,
            None => best,
        },
{
    match at {
        Some(h) => h,
        None => best,
    }
}

/// The answer to a query whose runtime call gave `result`; an error is given
/// as its debug text.
pub fn answer(result: Result<u32, String>) -> (r: Result<u32, RpcError>)
    ensures
        match r {
            Ok(v) => spec_answer(match result { Ok(x) => Ok(x), Err(d) => Err(d@) }) == Ok::<u32, RpcErrorView>(v),
            Err(e) => spec_answer(match result { Ok(x) => Ok(x), Err(d) => Err(d@) }) == Err::<u32, RpcErrorView>(e@),
        },
{
    match result {
        Ok(v) => Ok(v),
        Err(debug) => {
            let message = String::from_str("Something wrong");
            proof {
                reveal_strlit("Something wrong");
                assert(message@ =~= failure_message());
            }
            Err(RpcError { code: SERVER_ERROR_CODE, message, data: Some(debug) })
        },
    }
}

impl<C, M> SumStorage<C, M> {
    /// The RPC over `client`.
    pub fn new(client: Arc<C>) -> (r: Self)
        ensures
            r.client == client,
    {
        SumStorage { client, marker: PhantomData }
    }

    /// The answer to `sumStorage_getSum`, given what the runtime's `get_sum`
    /// returned at the block the query runs at.
    pub fn get_sum(&self, result: Result<u32, String>) -> (r: Result<u32, RpcError>)
        ensures
            match r {
                Ok(v) => spec_answer(match result { Ok(x) => Ok(x), Err(d) => Err(d@) }) == Ok::<u32, RpcErrorView>(v),
                Err(e) => spec_answer(match result { Ok(x) => Ok(x), Err(d) => Err(d@) }) == Err::<u32, RpcErrorView>(e@),
            },
    {
        answer(result)
    }

    /// The answer to `sumStorage_getProduct`, given what the runtime's
    /// `get_product` returned at the block the query runs at.
    pub fn get_product(&self, product_result: Result<u32, String>) -> (r: Result<u32, RpcError>)
        ensures
            match r {
                Ok(v) => spec_answer(match product_result { Ok(x) => Ok(x), Err(d) => Err(d@) }) == Ok::<u32, RpcErrorView>(v),
                Err(e) => spec_answer(match product_result { Ok(x) => Ok(x), Err(d) => Err(d@) }) == Err::<u32, RpcErrorView>(e@),
            },
    {
        answer(product_result)
    }
}

/// The silly RPC.
#[derive(Clone, Copy, Debug)]
pub struct Silly;

impl Silly {
    /// `monkey_double`: twice `val`.
    pub fn monkey_double(&self, val: u64) -> (r: Result<u64, RpcError>)
        requires
            2 * val <= u64::MAX,
        ensures
            r matches Ok(v) && v == 2 * val,
    {
        Ok(2 * val)
    }
}

} // verus!
