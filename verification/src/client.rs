//! One client for every vendor: the vendor is chosen by number when a
//! fetch begins, and the fetch then runs as that vendor's client does.

use vstd::prelude::*;
use crate::huawei_parser::{
    first_state, huawei_step, request_of, xml_answer, HuaweiParser, HuaweiStepView,
};
use crate::modem_utils::{
    Document, ModemError, ModemInfoParser, ModemStatusView, Request, Step,
};
use crate::netgear_parser::{fetched, info_request, NetgearParser};
use crate::scheduler::{vendor_by_id, Vendor};

verus! {

/// A fetch cycle under way at a modem of one of the vendors.
#[derive(Debug, PartialEq, Eq)]
pub enum ModemClient {
    Netgear(NetgearParser),
    Huawei(HuaweiParser),
}

impl ModemClient {
    /// Starts a fetch cycle at a modem of the manufacturer with the given
    /// number: the client's state and its first request, or `Unknown` for
    /// a number that stands for no vendor.
    pub fn begin(manufacturer_id: i32) -> (r: Result<(ModemClient, Request), ModemError>)
        ensures
            match r {
                Ok((ModemClient::Netgear(_), request)) => manufacturer_id == 0 && request@
                    == info_request(),
                Ok((ModemClient::Huawei(state), request)) => manufacturer_id == 1 && state@
                    == first_state() && request@ == request_of(first_state())
                    && state.status.wf(),
                Err(e) => manufacturer_id != 0 && manufacturer_id != 1 && e
                    == ModemError::Unknown,
            },
    {
        match vendor_by_id(manufacturer_id) {
            Some(Vendor::Netgear) => {
                let (state, request) = NetgearParser::begin();
                Ok((ModemClient::Netgear(state), request))
            },
            Some(Vendor::Huawei) => {
                let (state, request) = HuaweiParser::begin();
                Ok((ModemClient::Huawei(state), request))
            },
            None => Err(ModemError::Unknown),
        }
    }

    /// An upper bound on the requests still to come after the one that is
    /// out.
    pub open spec fn requests_left(&self) -> nat {
        match self {
            ModemClient::Netgear(state) => state.requests_left(),
            ModemClient::Huawei(state) => state.requests_left(),
        }
    }

    /// Takes the answer to the request that is out, as the vendor's
    /// client does.
    pub fn resume(self, answer: Option<Document>) -> (r: Step<ModemClient>)
        ensures
            r matches Step::Ask(next, _) ==> next.requests_left() < self.requests_left(),
            match self {
                ModemClient::Netgear(_) => match r {
                    Step::Done(Ok(status)) => fetched(answer) == Ok::<
                        ModemStatusView,
                        ModemError,
                    >(status@) && status.wf(),
                    Step::Done(Err(e)) => fetched(answer) == Err::<ModemStatusView, ModemError>(e),
                    Step::Ask(_, _) => false,
                },
                ModemClient::Huawei(state) => match r {
                    Step::Ask(ModemClient::Huawei(next), request) => huawei_step(
                        state@,
                        xml_answer(answer),
                    ) == HuaweiStepView::Ask(next@) && request@ == request_of(next@) && (
                    state.status.wf() ==> next.status.wf()),
                    Step::Ask(ModemClient::Netgear(_), _) => false,
                    Step::Done(Ok(status)) => huawei_step(state@, xml_answer(answer))
                        == HuaweiStepView::Done(Ok(status@)) && (state.status.wf()
                        ==> status.wf()),
                    Step::Done(Err(e)) => huawei_step(state@, xml_answer(answer))
                        == HuaweiStepView::Done(Err(e)),
                },
            },
    {
        match self {
            ModemClient::Netgear(state) => match state.resume(answer) {
                Step::Ask(next, request) => Step::Ask(ModemClient::Netgear(next), request),
                Step::Done(result) => Step::Done(result),
            },
            ModemClient::Huawei(state) => match state.resume(answer) {
                Step::Ask(next, request) => Step::Ask(ModemClient::Huawei(next), request),
                Step::Done(result) => Step::Done(result),
            },
        }
    }
}

} // verus!
