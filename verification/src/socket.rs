//! The UDP socket state machine: closed → open/bound → closed, around a
//! fixed-size receive buffer.  The native engine keeps a raw pointer into the
//! socket's storage while it is open, so the host must pin the socket to a
//! fixed address before opening it and keep it pinned until it is closed; the
//! state and buffer logic here is what the engine's calls are wrapped around.
//! The engine's own calls (open, bind, send, close, message handling) are
//! performed by the host, which feeds their status codes in.

use crate::net::{ipv6_bytes, ipv6_from_octets, ipv6_unspecified};
use crate::ot::OpenThread;
use crate::Error;
use vstd::prelude::*;

verus! {

/// A UDP socket over the engine's IPv6 stack.  `BUFFER_SIZE` is the capacity
/// of the receive buffer; a datagram longer than the buffer is truncated to
/// the buffer's capacity when it is buffered.
///
/// Once opened, the socket's storage must stay at a fixed address until it is
/// closed: the engine retains a pointer into it across calls.
pub struct UdpSocket<const BUFFER_SIZE: usize> {
    open: bool,
    receive_buffer: [u8; BUFFER_SIZE],
    receive_len: usize,
    receive_from: [u8; 16],
    receive_port: u16,
    max: usize,
}

impl<const BUFFER_SIZE: usize> UdpSocket<BUFFER_SIZE> {
    #[verifier::type_invariant]
    spec fn inv(&self) -> bool {
        &&& self.max == BUFFER_SIZE
        &&& self.receive_len <= BUFFER_SIZE
    }

    /// Whether the socket is registered with the engine.
    pub closed spec fn spec_is_open(&self) -> bool {
        self.open
    }

    /// The datagram currently buffered for the next `receive`, empty when
    /// nothing is pending.
    pub closed spec fn spec_buffered(&self) -> Seq<u8> {
        self.receive_buffer@.subrange(0, self.receive_len as int)
    }

    /// The sender address bytes of the buffered datagram.
    pub closed spec fn spec_peer_addr(&self) -> Seq<u8> {
        self.receive_from@
    }

    /// The sender port of the buffered datagram.
    pub closed spec fn spec_peer_port(&self) -> u16 {
        self.receive_port
    }

    /// Whether the socket is registered with the engine.
    pub fn is_open(&self) -> (r: bool)
        ensures
            r == self.spec_is_open(),
    {
        self.open
    }

    /// Registers the socket with the engine and binds it to `port`.
    /// `open_status` and `bind_status` are what the engine's open and bind
    /// calls returned; the bind call is only made once the open call was
    /// accepted.  The socket counts as open as soon as the open call was
    /// accepted, even if the bind was then refused.
    ///
    /// The host must pin the socket before making the engine's open call and
    /// keep it pinned until the socket is closed.
    pub fn bind(&mut self, port: u16, open_status: u32, bind_status: u32) -> (r: Result<
        (),
        Error,
    >)
        ensures
            r is Ok <==> (open_status == 0 && bind_status == 0),
            open_status != 0 ==> r == Err::<(), Error>(Error::InternalError(open_status)),
            open_status == 0 && bind_status != 0 ==> r == Err::<(), Error>(
                Error::InternalError(bind_status),
            ),
            final(self).spec_is_open() == (open_status == 0 || old(self).spec_is_open()),
            final(self).spec_buffered() == old(self).spec_buffered(),
            final(self).spec_peer_addr() == old(self).spec_peer_addr(),
            final(self).spec_peer_port() == old(self).spec_peer_port(),
    {
        proof {
            use_type_invariant(&*self);
        }
        if open_status != 0 {
            return Err(Error::InternalError(open_status));
        }
        self.open = true;
        if bind_status != 0 {
            return Err(Error::InternalError(bind_status));
        }
        let _ = port;
        Ok(())
    }

    /// Registers the socket with the engine without binding it.
    /// `open_status` is what the engine's open call returned.
    ///
    /// The host must pin the socket before making the engine's open call and
    /// keep it pinned until the socket is closed.
    pub fn open(&mut self, port: u16, open_status: u32) -> (r: Result<(), Error>)
        ensures
            r is Ok <==> open_status == 0,
            open_status != 0 ==> r == Err::<(), Error>(Error::InternalError(open_status)),
            final(self).spec_is_open() == (open_status == 0 || old(self).spec_is_open()),
            final(self).spec_buffered() == old(self).spec_buffered(),
            final(self).spec_peer_addr() == old(self).spec_peer_addr(),
            final(self).spec_peer_port() == old(self).spec_peer_port(),
    {
        proof {
            use_type_invariant(&*self);
        }
        if open_status != 0 {
            return Err(Error::InternalError(open_status));
        }
        self.open = true;
        let _ = port;
        Ok(())
    }

    /// Copies out the buffered datagram, if any: a non-blocking poll, never a
    /// suspend point.  With nothing buffered it returns length zero, the
    /// unspecified address and port zero, and changes nothing.  Otherwise the
    /// datagram's bytes are copied into the front of `data`, the buffered
    /// length is reset to empty, and the sender's address and port are
    /// returned.
    pub fn receive(&mut self, data: &mut Vec<u8>) -> (r: Result<
        (usize, no_std_net::Ipv6Addr, u16),
        Error,
    >)
        requires
            old(data)@.len() >= BUFFER_SIZE,
        ensures
            r is Ok,
            final(self).spec_is_open() == old(self).spec_is_open(),
            final(self).spec_buffered().len() == 0,
            final(data)@.len() == old(data)@.len(),
            r matches Ok((len, addr, port)) ==> {
                &&& len == old(self).spec_buffered().len()
                &&& (old(self).spec_buffered().len() == 0 ==> final(data)@ == old(data)@
                    && final(self).spec_peer_addr() == old(self).spec_peer_addr()
                    && final(self).spec_peer_port() == old(self).spec_peer_port()
                    && ipv6_bytes(addr) == Seq::new(16, |i: int| 0u8) && port == 0)
                &&& (old(self).spec_buffered().len() > 0 ==> {
                    &&& final(data)@ == old(self).spec_buffered() + old(data)@.skip(len as int)
                    &&& ipv6_bytes(addr) == old(self).spec_peer_addr()
                    &&& port == old(self).spec_peer_port()
                })
            },
    {
        proof {
            use_type_invariant(&*self);
        }
        let len = self.receive_len;
        if len == 0 {
            Ok((0, ipv6_unspecified(), 0))
        } else {
            self.receive_len = 0;
            let mut i: usize = 0;
            while i < len
                invariant
                    i <= len,
                    len <= BUFFER_SIZE,
                    data@.len() == old(data)@.len() >= BUFFER_SIZE,
                    forall|j: int| 0 <= j < i ==> data@[j] == old(self).spec_buffered()[j],
                    forall|j: int| i <= j < data@.len() ==> data@[j] == old(data)@[j],
                    self.receive_buffer@ == old(self).receive_buffer@,
                    len == old(self).receive_len,
                decreases len - i,
            {
                let b = self.receive_buffer[i];
                data.set(i, b);
                i += 1;
            }
            proof {
                assert(data@ =~= old(self).spec_buffered() + old(data)@.skip(len as int));
            }
            let ip = ipv6_from_octets(&self.receive_from);
            Ok((len, ip, self.receive_port))
        }
    }

    /// The outcome of sending one datagram, from what the engine's calls
    /// returned: `message_allocated` says whether the engine handed out a
    /// message buffer at all, `append_status` what appending the payload
    /// returned, and `send_status` what submitting the message returned (the
    /// later calls are only made once the earlier ones succeeded; their
    /// statuses are ignored otherwise).  The result pairs what `send` reports
    /// with whether the host must free the engine's message: exactly when a
    /// message was allocated but not accepted for transmission — the
    /// mandatory cleanup that keeps the engine's message pool from leaking.
    pub fn send(&self, message_allocated: bool, append_status: u32, send_status: u32) -> (r: (
        Result<(), Error>,
        bool,
    ))
        ensures
            !message_allocated ==> r == (Err::<(), Error>(Error::InternalError(0)), false),
            message_allocated && append_status != 0 ==> r == (
                Err::<(), Error>(Error::InternalError(append_status)),
                true,
            ),
            message_allocated && append_status == 0 && send_status != 0 ==> r == (
                Err::<(), Error>(Error::InternalError(send_status)),
                true,
            ),
            message_allocated && append_status == 0 && send_status == 0 ==> r == (
                Ok::<(), Error>(()),
                false,
            ),
            r.1 == (message_allocated && (append_status != 0 || send_status != 0)),
    {
        if !message_allocated {
            (Err(Error::InternalError(0)), false)
        } else if append_status != 0 {
            (Err(Error::InternalError(append_status)), true)
        } else if send_status != 0 {
            (Err(Error::InternalError(send_status)), true)
        } else {
            (Ok(()), false)
        }
    }

    /// Unregisters the socket.  `close_status` is what the engine's close
    /// call returned; once it reports success the socket is closed, and
    /// closing an already-closed socket is harmless.
    pub fn close(&mut self, close_status: u32) -> (r: Result<(), Error>)
        ensures
            r is Ok <==> close_status == 0,
            close_status != 0 ==> r == Err::<(), Error>(Error::InternalError(close_status)),
            final(self).spec_is_open() == (close_status != 0 && old(self).spec_is_open()),
            final(self).spec_buffered() == old(self).spec_buffered(),
            final(self).spec_peer_addr() == old(self).spec_peer_addr(),
            final(self).spec_peer_port() == old(self).spec_peer_port(),
    {
        proof {
            use_type_invariant(&*self);
        }
        if close_status != 0 {
            return Err(Error::InternalError(close_status));
        }
        self.open = false;
        Ok(())
    }

    /// Buffers one incoming datagram: the engine's receive handler, which can
    /// run nested inside `process`'s frame forwarding.  At most the buffer's
    /// capacity is copied — a longer datagram is truncated, never a fault —
    /// and the sender's address bytes and port are recorded with the new
    /// length.
    pub fn udp_receive_handler(&mut self, data: &Vec<u8>, from: &[u8; 16], port: u16)
        ensures
            final(self).spec_is_open() == old(self).spec_is_open(),
            final(self).spec_buffered().len() == (if data@.len() > BUFFER_SIZE {
                BUFFER_SIZE as int
            } else {
                data@.len() as int
            }),
            final(self).spec_buffered() == data@.subrange(0, final(self).spec_buffered().len() as int),
            final(self).spec_peer_addr() == from@,
            final(self).spec_peer_port() == port,
    {
        proof {
            use_type_invariant(&*self);
        }
        let len = if data.len() > self.max {
            self.max
        } else {
            data.len()
        };
        let mut i: usize = 0;
        while i < len
            invariant
                i <= len,
                len <= BUFFER_SIZE,
                len <= data@.len(),
                self.max == BUFFER_SIZE,
                self.receive_len <= BUFFER_SIZE,
                self.receive_buffer@.len() == BUFFER_SIZE,
                self.open == old(self).open,
                forall|j: int| 0 <= j < i ==> self.receive_buffer@[j] == data@[j],
            decreases len - i,
        {
            let b = data[i];
            self.receive_buffer[i] = b;
            i += 1;
        }
        self.receive_from = *from;
        self.receive_port = port;
        self.receive_len = len;
        proof {
            assert(final(self).spec_buffered() =~= data@.subrange(0, len as int));
        }
    }
}

impl<R, C> OpenThread<R, C> {
    /// Creates a new UDP socket: closed, with an empty receive buffer.  The
    /// host must pin the socket before opening or binding it.
    pub fn get_udp_socket<const BUFFER_SIZE: usize>(&self) -> (r: Result<
        UdpSocket<BUFFER_SIZE>,
        Error,
    >)
        ensures
            r matches Ok(s) ==> {
                &&& !s.spec_is_open()
                &&& s.spec_buffered().len() == 0
                &&& s.spec_peer_port() == 0
            },
            r is Ok,
    {
        Ok(
            UdpSocket {
                open: false,
                receive_buffer: [0u8; BUFFER_SIZE],
                receive_len: 0,
                receive_from: [0u8; 16],
                receive_port: 0,
                max: BUFFER_SIZE,
            },
        )
    }
}

} // verus!
