//! One poll of the gateway as a state machine: login, the four fetches,
//! rendering, and logout. The caller sends each request that
//! [`Scrape::next_request`] names and hands the answer to
//! [`Scrape::on_answer`], until there is no request left.

use vstd::prelude::*;
use crate::client::{
    Call, Client, ClientError, RpcRequest, RpcResponse, login_outcome, status_response,
    wan_response, devices_response, metrics_response, rpc_body_text, login_parameters, opt_text,
    texts,
};
use crate::status::Status;
use crate::wan::WANConfiguration;
use crate::devices::Device;
use crate::metrics::Metrics;
use crate::render::{render_exposition, exposition_text};

verus! {

/// Where a poll stands: the request that it waits on the answer to.
#[derive(Debug, Clone, Copy, PartialEq, Eq)]
pub enum ScrapeStep {
    Login,
    Fetch(Call),
    Logout,
    Finished,
}

/// The steps that may follow one another: a failed login ends the poll; a
/// failed fetch, or the last one, leads to logout; logout ends the poll.
pub open spec fn step_follows(a: ScrapeStep, b: ScrapeStep) -> bool {
    match a {
        ScrapeStep::Login => b == ScrapeStep::Finished || b == ScrapeStep::Fetch(Call::Status),
        ScrapeStep::Fetch(c) => b == ScrapeStep::Logout || match c {
            Call::Status => b == ScrapeStep::Fetch(Call::WanConfig),
            Call::WanConfig => b == ScrapeStep::Fetch(Call::Metrics),
            Call::Metrics => b == ScrapeStep::Fetch(Call::Devices),
            Call::Devices => false,
        },
        ScrapeStep::Logout => b == ScrapeStep::Finished,
        ScrapeStep::Finished => b == ScrapeStep::Finished,
    }
}

/// The fetch after `c`, if any.
pub open spec fn next_call(c: Call) -> Option<Call> {
    match c {
        Call::Status => Some(Call::WanConfig),
        Call::WanConfig => Some(Call::Metrics),
        Call::Metrics => Some(Call::Devices),
        Call::Devices => None,
    }
}

/// One poll: its session, its step, the records fetched so far, and, once
/// known, its outcome. Every instance line of the rendering is stamped
/// `timestamp`.
#[derive(Debug)]
pub struct Scrape {
    pub client: Client,
    pub step: ScrapeStep,
    pub timestamp: u128,
    pub status: Option<Status>,
    pub wan: Option<WANConfiguration>,
    pub metrics: Option<Vec<Metrics>>,
    pub devices: Option<Vec<Device>>,
    pub outcome: Option<Result<String, ClientError>>,
}

impl Scrape {
    /// The session is logged in exactly between login and logout; the
    /// outcome is known from the first failure or the rendering on; each
    /// fetch has the records of the fetches before it.
    pub open spec fn wf(&self) -> bool {
        match self.step {
            ScrapeStep::Login => self.client.context_id is None && self.outcome is None,
            ScrapeStep::Fetch(c) => {
                &&& self.client.context_id is Some
                &&& self.outcome is None
                &&& c != Call::Status ==> self.status is Some
                &&& (c == Call::Metrics || c == Call::Devices) ==> self.wan is Some
                &&& c == Call::Devices ==> self.metrics is Some
            },
            ScrapeStep::Logout => self.client.context_id is Some && self.outcome is Some,
            ScrapeStep::Finished => self.outcome is Some,
        }
    }

    /// A poll that has yet to log in with `client`.
    pub fn new(client: Client, timestamp: u128) -> (r: Scrape)
        requires
            client.context_id is None,
        ensures
            r.wf(),
            r.step == ScrapeStep::Login,
            r.client == client,
            r.timestamp == timestamp,
    {
        Scrape {
            client,
            step: ScrapeStep::Login,
            timestamp,
            status: None,
            wan: None,
            metrics: None,
            devices: None,
            outcome: None,
        }
    }

    /// The request to send next; `None` once the poll is over. Logout is
    /// asked for in the logout step alone.
    pub fn next_request(&self) -> (r: Option<RpcRequest>)
        requires
            self.wf(),
        ensures
            match self.step {
                ScrapeStep::Login => r matches Some(q)
                    && opt_text(q.authorization) == Some("X-Sah-Login"@)
                    && q.body@ == rpc_body_text(
                        "sah.Device.Information"@,
                        "createContext"@,
                        login_parameters(self.client.username@, self.client.password@),
                    ),
                ScrapeStep::Fetch(c) => r matches Some(q)
                    && q.authorization is None
                    && q.body@ == rpc_body_text(c.service(), c.method(), c.parameters()),
                ScrapeStep::Logout => r matches Some(q)
                    && opt_text(q.authorization) == Some("X-Sah-Logout "@ + self.client.context_id->0@)
                    && q.body@ == rpc_body_text(
                        "sah.Device.Information"@,
                        "releaseContext"@,
                        "{\"applicationName\":\"so_sdkut\"}"@,
                    ),
                ScrapeStep::Finished => r is None,
            },
    {
        match self.step {
            ScrapeStep::Login => Some(self.client.login_request()),
            ScrapeStep::Fetch(c) => match self.client.call_request(c) {
                Ok(q) => Some(q),
                Err(_) => None,
            },
            ScrapeStep::Logout => match self.client.logout_request() {
                Ok(q) => Some(q),
                Err(_) => None,
            },
            ScrapeStep::Finished => None,
        }
    }

    /// Records a failure: the poll ends in logout.
    fn fail(&mut self, e: ClientError)
        requires
            old(self).wf(),
            old(self).step is Fetch,
        ensures
            final(self).wf(),
            final(self).step == ScrapeStep::Logout,
            final(self).outcome == Some(Err::<String, ClientError>(e)),
            final(self).client == old(self).client,
            final(self).timestamp == old(self).timestamp,
            final(self).status == old(self).status,
            final(self).wan == old(self).wan,
            final(self).metrics == old(self).metrics,
            final(self).devices == old(self).devices,
    {
        self.outcome = Some(Err(e));
        self.step = ScrapeStep::Logout;
    }

    /// Takes the answer to the request of the current step (or the transport
    /// error that stood in its way) and moves on.
    pub fn on_answer(&mut self, answer: Result<RpcResponse, ClientError>)
        requires
            old(self).wf(),
        ensures
            final(self).wf(),
            step_follows(old(self).step, final(self).step),
            final(self).timestamp == old(self).timestamp,
            match old(self).step {
                ScrapeStep::Login => match answer {
                    Err(e) => final(self).step == ScrapeStep::Finished
                        && final(self).outcome == Some(Err::<String, ClientError>(e)),
                    Ok(resp) => match login_outcome(resp) {
                        Err(e) => final(self).step == ScrapeStep::Finished
                            && final(self).outcome == Some(Err::<String, ClientError>(e)),
                        Ok((c, ctx)) => final(self).step == ScrapeStep::Fetch(Call::Status)
                            && final(self).client.context_id == Some(ctx)
                            && texts(final(self).client.cookies@) == texts(old(self).client.cookies@) + c,
                    },
                },
                ScrapeStep::Fetch(c) => {
                    let failure: Option<ClientError> = match answer {
                        Err(e) => Some(e),
                        Ok(resp) => match c {
                            Call::Status => match status_response(resp) { Err(e) => Some(e), Ok(_) => None },
                            Call::WanConfig => match wan_response(resp) { Err(e) => Some(e), Ok(_) => None },
                            Call::Metrics => match metrics_response(resp) { Err(e) => Some(e), Ok(_) => None },
                            Call::Devices => match devices_response(resp) { Err(e) => Some(e), Ok(_) => None },
                        },
                    };
                    &&& final(self).client == old(self).client
                    &&& (failure matches Some(e) ==> final(self).step == ScrapeStep::Logout
                        && final(self).outcome == Some(Err::<String, ClientError>(e)))
                    &&& failure is None ==> match next_call(c) {
                        Some(n) => final(self).step == ScrapeStep::Fetch(n),
                        None => final(self).step == ScrapeStep::Logout
                            && (final(self).outcome matches Some(Ok(text))
                            && text@ == exposition_text(
                                final(self).status->0,
                                final(self).wan->0,
                                final(self).metrics->0@,
                                final(self).devices->0@,
                                final(self).timestamp,
                            )),
                    }
                    &&& (failure is None && c == Call::Status) ==> (answer matches Ok(resp)
                        && status_response(resp) == Ok::<Status, ClientError>(final(self).status->0))
                    &&& (failure is None && c == Call::WanConfig) ==> (answer matches Ok(resp)
                        && wan_response(resp) == Ok::<WANConfiguration, ClientError>(final(self).wan->0))
                    &&& (failure is None && c == Call::Devices) ==> (answer matches Ok(resp)
                        && devices_response(resp) == Ok::<Seq<Device>, ClientError>(final(self).devices->0@))
                },
                ScrapeStep::Logout => final(self).step == ScrapeStep::Finished
                    && final(self).client.context_id is None
                    && final(self).client.cookies@.len() == 0
                    && final(self).outcome == old(self).outcome,
                ScrapeStep::Finished => *final(self) == *old(self),
            },
    {
        match self.step {
            ScrapeStep::Login => {
                match answer {
                    Err(e) => {
                        self.outcome = Some(Err(e));
                        self.step = ScrapeStep::Finished;
                    },
                    Ok(resp) => match self.client.login(&resp) {
                        Err(e) => {
                            self.outcome = Some(Err(e));
                            self.step = ScrapeStep::Finished;
                        },
                        Ok(()) => {
                            self.step = ScrapeStep::Fetch(Call::Status);
                        },
                    },
                }
            },
            ScrapeStep::Fetch(c) => {
                let resp = match answer {
                    Err(e) => {
                        self.fail(e);
                        return;
                    },
                    Ok(resp) => resp,
                };
                match c {
                    Call::Status => match Client::get_status(&resp) {
                        Err(e) => self.fail(e),
                        Ok(s) => {
                            self.status = Some(s);
                            self.step = ScrapeStep::Fetch(Call::WanConfig);
                        },
                    },
                    Call::WanConfig => match Client::get_wan_config(&resp) {
                        Err(e) => self.fail(e),
                        Ok(w) => {
                            self.wan = Some(w);
                            self.step = ScrapeStep::Fetch(Call::Metrics);
                        },
                    },
                    Call::Metrics => match Client::get_metrics(&resp) {
                        Err(e) => self.fail(e),
                        Ok(m) => {
                            self.metrics = Some(m);
                            self.step = ScrapeStep::Fetch(Call::Devices);
                        },
                    },
                    Call::Devices => match Client::get_devices(&resp) {
                        Err(e) => self.fail(e),
                        Ok(d) => {
                            let text = match (&self.status, &self.wan, &self.metrics) {
                                (Some(s), Some(w), Some(m)) => render_exposition(
                                    s,
                                    w,
                                    m.as_slice(),
                                    d.as_slice(),
                                    self.timestamp,
                                ),
                                _ => String::new(),
                            };
                            self.devices = Some(d);
                            self.outcome = Some(Ok(text));
                            self.step = ScrapeStep::Logout;
                        },
                    },
                }
            },
            ScrapeStep::Logout => {
                self.client.logout();
                self.step = ScrapeStep::Finished;
            },
            ScrapeStep::Finished => {},
        }
    }
}

/// The order of the steps: every step that follows another comes later in it,
/// but for the end, which follows itself.
pub open spec fn rank(s: ScrapeStep) -> nat {
    match s {
        ScrapeStep::Login => 0,
        ScrapeStep::Fetch(Call::Status) => 1,
        ScrapeStep::Fetch(Call::WanConfig) => 2,
        ScrapeStep::Fetch(Call::Metrics) => 3,
        ScrapeStep::Fetch(Call::Devices) => 4,
        ScrapeStep::Logout => 5,
        ScrapeStep::Finished => 6,
    }
}

/// The steps that a poll goes through: it starts at login, and each step
/// follows the one before it (as [`Scrape::on_answer`] ensures).
pub open spec fn is_run(run: Seq<ScrapeStep>) -> bool {
    &&& run.len() > 0
    &&& run[0] == ScrapeStep::Login
    &&& forall|i: int| 0 <= i < run.len() - 1 ==> step_follows(#[trigger] run[i], run[i + 1])
}

proof fn lemma_rank_grows(run: Seq<ScrapeStep>, i: int, j: int)
    requires
        is_run(run),
        0 <= i < j < run.len(),
        run[i] != ScrapeStep::Finished,
    ensures
        rank(run[i]) < rank(run[j]),
    decreases j - i,
{
    if j == i + 1 {
        assert(step_follows(run[i], run[i + 1]));
    } else {
        lemma_rank_grows(run, i, j - 1);
        assert(step_follows(run[j - 1], run[j - 1 + 1]));
    }
}

proof fn lemma_fetch_reaches_logout(run: Seq<ScrapeStep>, i: int) -> (j: int)
    requires
        is_run(run),
        run.last() == ScrapeStep::Finished,
        0 <= i < run.len(),
        run[i] is Fetch,
    ensures
        i < j < run.len(),
        run[j] == ScrapeStep::Logout,
    decreases run.len() - i,
{
    assert(i < run.len() - 1);
    assert(step_follows(run[i], run[i + 1]));
    if run[i + 1] == ScrapeStep::Logout {
        i + 1
    } else {
        lemma_fetch_reaches_logout(run, i + 1)
    }
}

/// A poll that has run to its end asks for logout exactly once where login
/// succeeded (some fetch took place), whichever fetch failed, and never where
/// login failed.
pub proof fn lemma_single_logout(run: Seq<ScrapeStep>)
    requires
        is_run(run),
        run.last() == ScrapeStep::Finished,
    ensures
        forall|i: int, j: int|
            0 <= i < j < run.len() && run[i] == ScrapeStep::Logout ==> run[j] != ScrapeStep::Logout,
        (exists|i: int| 0 <= i < run.len() && run[i] is Fetch)
            <==> (exists|j: int| 0 <= j < run.len() && run[j] == ScrapeStep::Logout),
{
    assert forall|i: int, j: int|
        0 <= i < j < run.len() && run[i] == ScrapeStep::Logout implies run[j] != ScrapeStep::Logout by {
        lemma_rank_grows(run, i, j);
    }
    if exists|i: int| 0 <= i < run.len() && run[i] is Fetch {
        let i = choose|i: int| 0 <= i < run.len() && run[i] is Fetch;
        let j = lemma_fetch_reaches_logout(run, i);
        assert(run[j] == ScrapeStep::Logout);
    }
    if exists|j: int| 0 <= j < run.len() && run[j] == ScrapeStep::Logout {
        let j = choose|j: int| 0 <= j < run.len() && run[j] == ScrapeStep::Logout;
        assert(j > 0);
        assert(step_follows(run[j - 1], run[j - 1 + 1]));
        assert(run[j - 1] is Fetch);
    }
}

} // verus!
