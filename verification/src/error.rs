//! The errors of the proxy.

use vstd::prelude::*;
use vstd::string::*;

use crate::text::concat2;

verus! {

/// The errors of the proxy. The serialization and I/O variants carry the
/// message of the underlying error.
#[derive(Debug)]
pub enum TrestleError {
    Config(String),
    Request(String),
    Upstream(String),
    Route(String),
    Serialization(String),
    Io(String),
    Http(String),
}

impl TrestleError {
    /// The text that the error is displayed as.
    pub open spec fn message_spec(&self) -> Seq<char> {
        match self {
            TrestleError::Config(s) => "配置错误: "@ + s@,
            TrestleError::Request(s) => "请求错误: "@ + s@,
            TrestleError::Upstream(s) => "上游服务错误: "@ + s@,
            TrestleError::Route(s) => "路由错误: "@ + s@,
            TrestleError::Serialization(s) => "序列化错误: "@ + s@,
            TrestleError::Io(s) => "IO 错误: "@ + s@,
            TrestleError::Http(s) => "HTTP 错误: "@ + s@,
        }
    }

    /// The text that the error is displayed as: a label of its kind, then
    /// its detail.
    pub fn message(&self) -> (r: String)
        ensures
            r@ == self.message_spec(),
    {
        match self {
            TrestleError::Config(s) => concat2("配置错误: ", s.as_str()),
            TrestleError::Request(s) => concat2("请求错误: ", s.as_str()),
            TrestleError::Upstream(s) => concat2("上游服务错误: ", s.as_str()),
            TrestleError::Route(s) => concat2("路由错误: ", s.as_str()),
            TrestleError::Serialization(s) => concat2("序列化错误: ", s.as_str()),
            TrestleError::Io(s) => concat2("IO 错误: ", s.as_str()),
            TrestleError::Http(s) => concat2("HTTP 错误: ", s.as_str()),
        }
    }
}

} // verus!
