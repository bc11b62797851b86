//! Shared traffic statistics of the two listeners: one counter per event
//! kind, each increased by the thread that observed the event.

use vstd::prelude::*;

verus! {

/// The listeners' counters.  Every counter saturates at the top of `usize`.
#[derive(Copy, Clone, PartialEq, Eq, Structural, Debug)]
pub struct Statistics {
    pub rx_gtp: usize,
    pub rx_ignored_gtp: usize,
    pub rx_gtp_echo_request: usize,
    pub tx_gtp_echo_request: usize,
    pub tx_gtp_echo_response: usize,
    pub rx_gtp_echo_response: usize,
    pub tx_gtp: usize,
    pub rx_ip: usize,
    pub tx_ip: usize,
}

/// `a + n`, held at the top of `usize`.
pub open spec fn counter_add(a: usize, n: usize) -> usize {
    if a + n <= usize::MAX {
        (a + n) as usize
    } else {
        usize::MAX
    }
}

impl Statistics {
    /// All counters start at zero.
    pub fn new() -> (r: Self)
        ensures
            r == (Statistics {
                rx_gtp: 0,
                rx_ignored_gtp: 0,
                rx_gtp_echo_request: 0,
                tx_gtp_echo_request: 0,
                tx_gtp_echo_response: 0,
                rx_gtp_echo_response: 0,
                tx_gtp: 0,
                rx_ip: 0,
                tx_ip: 0,
            }),
    {
        Statistics {
            rx_gtp: 0,
            rx_ignored_gtp: 0,
            rx_gtp_echo_request: 0,
            tx_gtp_echo_request: 0,
            tx_gtp_echo_response: 0,
            rx_gtp_echo_response: 0,
            tx_gtp: 0,
            rx_ip: 0,
            tx_ip: 0,
        }
    }

    pub fn rx_gtp_add(&mut self, n: usize) -> (r: usize)
        ensures
            final(self).rx_gtp == counter_add(old(self).rx_gtp, n),
            r == final(self).rx_gtp,
            *final(self) == (Statistics { rx_gtp: final(self).rx_gtp, ..*old(self) }),
    {
        self.rx_gtp = saturating_add(self.rx_gtp, n);
        self.rx_gtp
    }

    pub fn rx_gtp_echo_request_add(&mut self, n: usize) -> (r: usize)
        ensures
            final(self).rx_gtp_echo_request == counter_add(old(self).rx_gtp_echo_request, n),
            r == final(self).rx_gtp_echo_request,
            *final(self) == (Statistics {
                rx_gtp_echo_request: final(self).rx_gtp_echo_request,
                ..*old(self)
            }),
    {
        self.rx_gtp_echo_request = saturating_add(self.rx_gtp_echo_request, n);
        self.rx_gtp_echo_request
    }

    pub fn rx_gtp_echo_response_add(&mut self, n: usize) -> (r: usize)
        ensures
            final(self).rx_gtp_echo_response == counter_add(old(self).rx_gtp_echo_response, n),
            r == final(self).rx_gtp_echo_response,
            *final(self) == (Statistics {
                rx_gtp_echo_response: final(self).rx_gtp_echo_response,
                ..*old(self)
            }),
    {
        self.rx_gtp_echo_response = saturating_add(self.rx_gtp_echo_response, n);
        self.rx_gtp_echo_response
    }

    pub fn tx_gtp_echo_request_add(&mut self, n: usize) -> (r: usize)
        ensures
            final(self).tx_gtp_echo_request == counter_add(old(self).tx_gtp_echo_request, n),
            r == final(self).tx_gtp_echo_request,
            *final(self) == (Statistics {
                tx_gtp_echo_request: final(self).tx_gtp_echo_request,
                ..*old(self)
            }),
    {
        self.tx_gtp_echo_request = saturating_add(self.tx_gtp_echo_request, n);
        self.tx_gtp_echo_request
    }

    pub fn tx_gtp_echo_response_add(&mut self, n: usize) -> (r: usize)
        ensures
            final(self).tx_gtp_echo_response == counter_add(old(self).tx_gtp_echo_response, n),
            r == final(self).tx_gtp_echo_response,
            *final(self) == (Statistics {
                tx_gtp_echo_response: final(self).tx_gtp_echo_response,
                ..*old(self)
            }),
    {
        self.tx_gtp_echo_response = saturating_add(self.tx_gtp_echo_response, n);
        self.tx_gtp_echo_response
    }

    pub fn rx_ignored_gtp_add(&mut self, n: usize) -> (r: usize)
        ensures
            final(self).rx_ignored_gtp == counter_add(old(self).rx_ignored_gtp, n),
            r == final(self).rx_ignored_gtp,
            *final(self) == (Statistics {
                rx_ignored_gtp: final(self).rx_ignored_gtp,
                ..*old(self)
            }),
    {
        self.rx_ignored_gtp = saturating_add(self.rx_ignored_gtp, n);
        self.rx_ignored_gtp
    }

    pub fn tx_gtp_add(&mut self, n: usize) -> (r: usize)
        ensures
            final(self).tx_gtp == counter_add(old(self).tx_gtp, n),
            r == final(self).tx_gtp,
            *final(self) == (Statistics { tx_gtp: final(self).tx_gtp, ..*old(self) }),
    {
        self.tx_gtp = saturating_add(self.tx_gtp, n);
        self.tx_gtp
    }

    pub fn rx_ip_add(&mut self, n: usize) -> (r: usize)
        ensures
            final(self).rx_ip == counter_add(old(self).rx_ip, n),
            r == final(self).rx_ip,
            *final(self) == (Statistics { rx_ip: final(self).rx_ip, ..*old(self) }),
    {
        self.rx_ip = saturating_add(self.rx_ip, n);
        self.rx_ip
    }

    pub fn tx_ip_add(&mut self, n: usize) -> (r: usize)
        ensures
            final(self).tx_ip == counter_add(old(self).tx_ip, n),
            r == final(self).tx_ip,
            *final(self) == (Statistics { tx_ip: final(self).tx_ip, ..*old(self) }),
    {
        self.tx_ip = saturating_add(self.tx_ip, n);
        self.tx_ip
    }

}

/// `a + n`, held at the top of `usize`.
fn saturating_add(a: usize, n: usize) -> (r: usize)
    ensures
        r == counter_add(a, n),
{
    if n > usize::MAX - a {
        usize::MAX
    } else {
        a + n
    }
}

} // verus!
