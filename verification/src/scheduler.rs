//! The transmission scheduler: decides, cycle by cycle, what the radio
//! sends next.
//!
//! One tick is one scheduling cycle. A tick either transmits a location
//! report (read the sensors, build the frame, send, retrying the whole
//! attempt on failure up to the retry cap) or, while an image is being
//! transmitted, sends the next image half-frame: even cycles pull a
//! fresh SSDV packet and send its first half, odd cycles send the
//! second half of the same packet. After a location tick the scheduler
//! checks the altitude; crossing the trigger while no image is active
//! captures a photograph and starts an image transmission. Encoder
//! failure or completion drops the image and location reporting
//! resumes.
//!
//! The scheduler itself does no input or output. The caller runs the
//! loop: it performs each returned action (read, transmit, capture,
//! sleep out the tick) and hands the outcome back as the next event.

use crate::ax25::Header;
use crate::framer;
use crate::framer::{
    spec_image_frame, spec_location_frame, AltimeterReading, LocationFix,
};
use crate::ssdv::{run_machine, spec_next_packet_id, spec_packet, PacketType, Ssdv, PAYLOAD_SIZE};
use vstd::prelude::*;

verus! {

/// How many times a failing transmission, sensor read or capture is
/// attempted before the tick gives up.
pub const MAX_RETRIES: usize = 20;

/// The altitude, in millimetres, above which an image capture starts.
pub const ALTITUDE_TRIGGER_MM: i64 = 20000000;

/// Where the scheduler stands inside a tick.
#[derive(Debug, Clone, Copy, PartialEq, Eq)]
pub enum Phase {
    /// Between ticks; the next event is the tick start.
    TickStart,
    /// A sensor read was requested for a location report.
    AwaitSensors,
    /// A location frame is on the air.
    AwaitLocationTransmit,
    /// An image half-frame is on the air.
    AwaitImageTransmit,
    /// An altitude reading was requested for the capture decision.
    AwaitAltitude,
    /// An image capture was requested.
    AwaitCapture,
}

/// What the caller reports back to the scheduler.
pub enum Event {
    /// A new tick begins.
    Start,
    /// The sensor read finished; `None` parts failed to read.
    Sensors { fix: Option<LocationFix>, alt: Option<AltimeterReading> },
    /// The transmission finished or failed.
    TransmitResult { ok: bool },
    /// The altitude check finished; `None` means the read failed.
    Altitude { altitude_mm: Option<i64> },
    /// The capture finished with the image bytes, or failed.
    Capture { image: Option<Vec<u8>> },
}

/// What the caller must do next.
pub enum Action {
    /// Read GPS and altimeter, then report `Sensors`.
    ReadSensors,
    /// Transmit this location frame, then report `TransmitResult`.
    TransmitLocation(Vec<u8>),
    /// Transmit this image half-frame, then report `TransmitResult`.
    TransmitImage(Vec<u8>),
    /// Read the altitude, then report `Altitude`.
    ReadAltitude,
    /// Capture a photograph, then report `Capture`.
    CaptureImage,
    /// The tick is over: sleep out the cycle, then report `Start`.
    EndTick,
}

/// The shape of an action, without its payload.
#[derive(Debug, Clone, Copy, PartialEq, Eq)]
pub enum ActionKind {
    ReadSensors,
    TransmitLocation,
    TransmitImage,
    ReadAltitude,
    CaptureImage,
    EndTick,
}

/// The shape of an action.
pub open spec fn kind_of(a: Action) -> ActionKind {
    match a {
        Action::ReadSensors => ActionKind::ReadSensors,
        Action::TransmitLocation(_) => ActionKind::TransmitLocation,
        Action::TransmitImage(_) => ActionKind::TransmitImage,
        Action::ReadAltitude => ActionKind::ReadAltitude,
        Action::CaptureImage => ActionKind::CaptureImage,
        Action::EndTick => ActionKind::EndTick,
    }
}

/// The control state of the scheduler: phase, mode and counters.
pub struct Ctl {
    pub phase: Phase,
    pub transmitting_image: bool,
    pub retries: usize,
    pub image_packet_num: u64,
    pub packet_num: u64,
}

/// A tick counter one further on, wrapping at the end of its range.
pub open spec fn spec_next_counter(n: u64) -> u64 {
    if n == 0xFFFFFFFFFFFFFFFF {
        0
    } else {
        (n + 1) as u64
    }
}

/// A sensor event good enough to build a location frame: both reads
/// succeeded and the fix carries position and timestamp.
pub open spec fn spec_sensors_good(fix: Option<LocationFix>, alt: Option<AltimeterReading>) -> bool {
    &&& fix matches Some(f) && f.time is Some && f.latitude_udeg is Some && f.longitude_udeg
        is Some
    &&& alt is Some
}

/// Whether an event counts as a success for its phase: a usable sensor
/// read, a delivered frame, an altitude at or above the trigger, a
/// captured image.
pub open spec fn spec_event_good(ev: Event) -> bool {
    match ev {
        Event::Start => true,
        Event::Sensors { fix, alt } => spec_sensors_good(fix, alt),
        Event::TransmitResult { ok } => ok,
        Event::Altitude { altitude_mm } => altitude_mm matches Some(a) && a
            >= ALTITUDE_TRIGGER_MM,
        Event::Capture { image } => image is Some,
    }
}

/// Whether an event answers the phase's outstanding action.
pub open spec fn spec_event_matches(phase: Phase, ev: Event) -> bool {
    match (phase, ev) {
        (Phase::TickStart, Event::Start) => true,
        (Phase::AwaitSensors, Event::Sensors { .. }) => true,
        (Phase::AwaitLocationTransmit, Event::TransmitResult { .. }) => true,
        (Phase::AwaitImageTransmit, Event::TransmitResult { .. }) => true,
        (Phase::AwaitAltitude, Event::Altitude { .. }) => true,
        (Phase::AwaitCapture, Event::Capture { .. }) => true,
        _ => false,
    }
}

/// The control transition for every phase but the tick start: what the
/// counters, mode and phase become, and which kind of action goes out.
pub open spec fn ctl_step(c: Ctl, good: bool) -> (Ctl, ActionKind) {
    match c.phase {
        Phase::AwaitSensors => {
            if good {
                (Ctl { phase: Phase::AwaitLocationTransmit, ..c }, ActionKind::TransmitLocation)
            } else if c.retries + 1 < MAX_RETRIES {
                (Ctl { retries: (c.retries + 1) as usize, ..c }, ActionKind::ReadSensors)
            } else {
                (
                    Ctl { phase: Phase::AwaitAltitude, retries: (c.retries + 1) as usize, ..c },
                    ActionKind::ReadAltitude,
                )
            }
        },
        Phase::AwaitLocationTransmit => {
            if good {
                (Ctl { phase: Phase::AwaitAltitude, ..c }, ActionKind::ReadAltitude)
            } else if c.retries + 1 < MAX_RETRIES {
                (
                    Ctl { phase: Phase::AwaitSensors, retries: (c.retries + 1) as usize, ..c },
                    ActionKind::ReadSensors,
                )
            } else {
                (
                    Ctl { phase: Phase::AwaitAltitude, retries: (c.retries + 1) as usize, ..c },
                    ActionKind::ReadAltitude,
                )
            }
        },
        Phase::AwaitImageTransmit => {
            if good {
                (
                    Ctl {
                        phase: Phase::TickStart,
                        image_packet_num: spec_next_counter(c.image_packet_num),
                        packet_num: spec_next_counter(c.packet_num),
                        ..c
                    },
                    ActionKind::EndTick,
                )
            } else if c.retries + 1 < MAX_RETRIES {
                (Ctl { retries: (c.retries + 1) as usize, ..c }, ActionKind::TransmitImage)
            } else {
                (
                    Ctl {
                        phase: Phase::TickStart,
                        retries: (c.retries + 1) as usize,
                        image_packet_num: spec_next_counter(c.image_packet_num),
                        packet_num: spec_next_counter(c.packet_num),
                        ..c
                    },
                    ActionKind::EndTick,
                )
            }
        },
        Phase::AwaitAltitude => {
            if good && !c.transmitting_image {
                (Ctl { phase: Phase::AwaitCapture, retries: 0, ..c }, ActionKind::CaptureImage)
            } else {
                (
                    Ctl { phase: Phase::TickStart, packet_num: spec_next_counter(c.packet_num), ..c },
                    ActionKind::EndTick,
                )
            }
        },
        Phase::AwaitCapture => {
            if good {
                (
                    Ctl {
                        phase: Phase::TickStart,
                        transmitting_image: true,
                        image_packet_num: 0,
                        packet_num: spec_next_counter(c.packet_num),
                        ..c
                    },
                    ActionKind::EndTick,
                )
            } else if c.retries + 1 < MAX_RETRIES {
                (Ctl { retries: (c.retries + 1) as usize, ..c }, ActionKind::CaptureImage)
            } else {
                (
                    Ctl {
                        phase: Phase::TickStart,
                        retries: (c.retries + 1) as usize,
                        packet_num: spec_next_counter(c.packet_num),
                        ..c
                    },
                    ActionKind::EndTick,
                )
            }
        },
        Phase::TickStart => (c, ActionKind::EndTick),
    }
}

/// A fix the framer can take: coordinates inside their real ranges.
pub open spec fn spec_fix_bounded(f: LocationFix) -> bool {
    &&& (f.latitude_udeg matches Some(la) ==> -90000000 <= la <= 90000000)
    &&& (f.longitude_udeg matches Some(lo) ==> -180000000 <= lo <= 180000000)
}

/// An altimeter reading the framer can take.
pub open spec fn spec_alt_bounded(a: AltimeterReading) -> bool {
    -100000000000 <= a.altitude_mm <= 100000000000
}

/// The long-lived scheduler state.
pub struct Scheduler {
    /// Frame addressing for everything this station sends.
    pub header: Header,
    /// Image identifier stamped on SSDV packets.
    pub image_id: u8,
    /// SSDV quality level.
    pub quality: u8,
    /// Ticks since start; counts every cycle whatever it sent.
    pub packet_num: u64,
    /// Half-frames of the current image so far.
    pub image_packet_num: u64,
    /// Whether an image transmission is active.
    pub transmitting_image: bool,
    /// Failures of the current operation so far this tick.
    pub retries: usize,
    /// Where the scheduler stands inside the tick.
    pub phase: Phase,
    /// The active image encoder, while one is.
    pub encoder: Option<Ssdv>,
    /// The SSDV packet whose halves are being sent.
    pub current_packet: Option<Vec<u8>>,
}

impl Scheduler {
    /// The control part of the state.
    pub open spec fn ctl(self) -> Ctl {
        Ctl {
            phase: self.phase,
            transmitting_image: self.transmitting_image,
            retries: self.retries,
            image_packet_num: self.image_packet_num,
            packet_num: self.packet_num,
        }
    }

    /// Well-formedness between steps.
    pub open spec fn wf(self) -> bool {
        &&& self.header.dest.ssid < 16
        &&& self.header.source.ssid < 16
        &&& self.retries <= MAX_RETRIES
        &&& ((self.phase is AwaitSensors || self.phase is AwaitLocationTransmit || self.phase
            is AwaitImageTransmit || self.phase is AwaitCapture) ==> self.retries < MAX_RETRIES)
        &&& (self.encoder matches Some(e) ==> e.wf())
        &&& (self.current_packet matches Some(p) ==> p@.len() == 256)
        &&& (self.phase is AwaitSensors ==> !self.transmitting_image)
        &&& (self.phase is AwaitLocationTransmit ==> !self.transmitting_image)
        &&& (self.phase is AwaitAltitude ==> !self.transmitting_image)
        &&& (self.phase is AwaitCapture ==> !self.transmitting_image)
        &&& (self.phase is AwaitImageTransmit ==> self.transmitting_image
            && self.current_packet is Some)
        &&& (self.transmitting_image ==> self.encoder is Some)
        &&& ((self.phase is TickStart && self.transmitting_image && self.image_packet_num % 2
            == 1) ==> self.current_packet is Some)
    }

    /// A fresh scheduler, idle before its first tick.
    pub fn new(header: Header, image_id: u8, quality: u8) -> (r: Scheduler)
        requires
            header.dest.ssid < 16,
            header.source.ssid < 16,
        ensures
            r.wf(),
            r.header == header,
            r.image_id == image_id,
            r.quality == quality,
            r.packet_num == 0,
            r.image_packet_num == 0,
            !r.transmitting_image,
            r.retries == 0,
            r.phase is TickStart,
            r.encoder is None,
            r.current_packet is None,
    {
        Scheduler {
            header,
            image_id,
            quality,
            packet_num: 0,
            image_packet_num: 0,
            transmitting_image: false,
            retries: 0,
            phase: Phase::TickStart,
            encoder: None,
            current_packet: None,
        }
    }

    /// Leaves image mode and opens the location branch of the tick.
    fn begin_location(&mut self) -> (a: Action)
        ensures
            final(self).phase is AwaitSensors,
            final(self).retries == 0,
            !final(self).transmitting_image,
            final(self).image_packet_num == 0,
            final(self).encoder == old(self).encoder,
            final(self).current_packet == old(self).current_packet,
            final(self).header == old(self).header,
            final(self).image_id == old(self).image_id,
            final(self).quality == old(self).quality,
            final(self).packet_num == old(self).packet_num,
            kind_of(a) == ActionKind::ReadSensors,
            a is ReadSensors,
    {
        self.transmitting_image = false;
        self.image_packet_num = 0;
        self.retries = 0;
        self.phase = Phase::AwaitSensors;
        Action::ReadSensors
    }

    /// One step of the scheduler: folds the event in, hands back the
    /// next action for the caller to perform.
    ///
    /// For every phase but the tick start the control state follows
    /// `ctl_step` exactly. A tick start either opens the location
    /// branch (read sensors) or, with an image active, pulls or reuses
    /// an SSDV packet and sends one of its halves; a finished or failed
    /// image falls back to the location branch in the same tick.
    pub fn step(&mut self, ev: Event) -> (a: Action)
        requires
            old(self).wf(),
            spec_event_matches(old(self).phase, ev),
            ev matches Event::Sensors { fix, alt } ==> (fix matches Some(f)
                ==> spec_fix_bounded(f)) && (alt matches Some(ar) ==> spec_alt_bounded(ar)),
        ensures
            final(self).wf(),
            final(self).header == old(self).header,
            final(self).image_id == old(self).image_id,
            final(self).quality == old(self).quality,
            !(ev is Start) ==> ({
                let (c2, k) = ctl_step(old(self).ctl(), spec_event_good(ev));
                final(self).ctl() == c2 && kind_of(a) == k
            }),
            ev matches Event::Sensors { fix, alt } ==> (spec_sensors_good(fix, alt) ==> (
            a matches Action::TransmitLocation(f) && f@ == spec_location_frame(
                old(self).header,
                fix->0.time->0,
                fix->0.latitude_udeg->0,
                fix->0.longitude_udeg->0,
                fix->0.course_speed,
                alt->0,
            ))),
            ev matches Event::TransmitResult { ok } ==> ((old(self).phase
                is AwaitImageTransmit && !ok && old(self).retries + 1 < MAX_RETRIES) ==> (
            a matches Action::TransmitImage(f) && f@ == spec_image_frame(
                old(self).header,
                old(self).current_packet->0@,
                old(self).image_packet_num % 2 == 1,
            ) && final(self).current_packet == old(self).current_packet)),
            ev matches Event::Capture { image } ==> ((old(self).phase is AwaitCapture
                && image is Some) ==> (final(self).encoder matches Some(e) && e.input@
                == image->0@ && e.pos == 0 && e.state is Marker && e.packet_id == 0
                && e.image_id == old(self).image_id && final(self).transmitting_image && final(self).current_packet is None)),
            ev is Start ==> ({
                &&& ((old(self).transmitting_image && old(self).image_packet_num % 2 == 0) ==> {
                    &&& (final(self).transmitting_image ==> (a matches Action::TransmitImage(f)
                        && (final(self).current_packet matches Some(p) && p@.len() == 256 && f@
                        == spec_image_frame(old(self).header, p@, false)) && final(self).phase
                        is AwaitImageTransmit && final(self).retries == 0 && final(self).image_packet_num == old(self).image_packet_num && final(self).packet_num
                        == old(self).packet_num))
                    &&& (final(self).transmitting_image ==> ({
                        // The packet sent is the one the encoder's
                        // machine produced over the input it consumed.
                        let e0 = old(self).encoder->0;
                        let e1 = final(self).encoder->0;
                        let c = e1.input@.subrange(e0.pos as int, e1.pos as int);
                        let vr = run_machine(e0.machine(), c);
                        &&& old(self).encoder is Some
                        &&& final(self).encoder is Some
                        &&& e1.cfg_unchanged(e0)
                        &&& e1.packet_id == spec_next_packet_id(e0.packet_id)
                        &&& (final(self).current_packet matches Some(p) ==> p@ == (
                        if vr.payload.len() >= PAYLOAD_SIZE {
                            spec_packet(
                                e0.ty,
                                e0.callsign,
                                e0.image_id,
                                e0.packet_id,
                                vr.width,
                                vr.height,
                                e0.quality,
                                false,
                                vr.payload.take(PAYLOAD_SIZE as int),
                            )
                        } else {
                            spec_packet(
                                e0.ty,
                                e0.callsign,
                                e0.image_id,
                                e0.packet_id,
                                vr.width,
                                vr.height,
                                e0.quality,
                                true,
                                vr.payload,
                            )
                        }))
                    }))
                    &&& (!final(self).transmitting_image ==> (a is ReadSensors && final(self).phase is AwaitSensors && final(self).retries == 0 && final(self).image_packet_num == 0 && final(self).packet_num == old(self).packet_num && final(self).encoder is None))
                })
                &&& ((old(self).transmitting_image && old(self).image_packet_num % 2 == 1) ==> {
                    &&& a matches Action::TransmitImage(f)
                    &&& (old(self).current_packet matches Some(p) && f@ == spec_image_frame(
                        old(self).header,
                        p@,
                        true,
                    ))
                    &&& final(self).phase is AwaitImageTransmit
                    &&& final(self).retries == 0
                    &&& final(self).transmitting_image
                    &&& final(self).current_packet == old(self).current_packet
                    &&& final(self).image_packet_num == old(self).image_packet_num
                    &&& final(self).packet_num == old(self).packet_num
                })
                &&& (!old(self).transmitting_image ==> (a is ReadSensors && final(self).phase
                    is AwaitSensors && final(self).retries == 0 && final(self).image_packet_num
                    == 0 && !final(self).transmitting_image && final(self).packet_num == old(self).packet_num))
                &&& !(a is CaptureImage)
            }),
    {
        match ev {
            Event::Start => {
                if self.transmitting_image {
                    if self.image_packet_num % 2 == 0 {
                        let enc_opt = self.encoder.take();
                        match enc_opt {
                            Some(mut enc) => {
                                let pulled = enc.next_packet();
                                match pulled {
                                    Some(Ok(p)) => {
                                        self.current_packet = Some(p);
                                        self.encoder = Some(enc);
                                        self.retries = 0;
                                        self.phase = Phase::AwaitImageTransmit;
                                        let packet = self.current_packet.as_ref().unwrap();
                                        let f = framer::frame_image_chunk(
                                            &self.header,
                                            packet,
                                            false,
                                        );
                                        Action::TransmitImage(f)
                                    },
                                    Some(Err(_)) => {
                                        // Unrecoverable for this image:
                                        // drop it and report location.
                                        self.current_packet = None;
                                        self.begin_location()
                                    },
                                    None => {
                                        // The image is complete.
                                        self.current_packet = None;
                                        self.begin_location()
                                    },
                                }
                            },
                            None => self.begin_location(),
                        }
                    } else {
                        let packet = self.current_packet.as_ref().unwrap();
                        let f = framer::frame_image_chunk(&self.header, packet, true);
                        self.retries = 0;
                        self.phase = Phase::AwaitImageTransmit;
                        Action::TransmitImage(f)
                    }
                } else {
                    self.begin_location()
                }
            },
            Event::Sensors { fix, alt } => {
                match (fix, alt) {
                    (Some(f), Some(al)) => {
                        match framer::frame_location(&self.header, &f, &al) {
                            Ok(frame) => {
                                self.phase = Phase::AwaitLocationTransmit;
                                Action::TransmitLocation(frame)
                            },
                            Err(_) => self.retry_sensors(),
                        }
                    },
                    _ => self.retry_sensors(),
                }
            },
            Event::TransmitResult { ok } => {
                match self.phase {
                    Phase::AwaitLocationTransmit => {
                        if ok {
                            self.phase = Phase::AwaitAltitude;
                            Action::ReadAltitude
                        } else {
                            self.retries = self.retries + 1;
                            if self.retries < MAX_RETRIES {
                                self.phase = Phase::AwaitSensors;
                                Action::ReadSensors
                            } else {
                                self.phase = Phase::AwaitAltitude;
                                Action::ReadAltitude
                            }
                        }
                    },
                    _ => {
                        // AwaitImageTransmit, by the phase/event match.
                        if ok {
                            self.image_packet_num = self.image_packet_num.wrapping_add(1);
                            self.packet_num = self.packet_num.wrapping_add(1);
                            self.phase = Phase::TickStart;
                            Action::EndTick
                        } else {
                            self.retries = self.retries + 1;
                            if self.retries < MAX_RETRIES {
                                let packet = self.current_packet.as_ref().unwrap();
                                let f = framer::frame_image_chunk(
                                    &self.header,
                                    packet,
                                    self.image_packet_num % 2 == 1,
                                );
                                Action::TransmitImage(f)
                            } else {
                                self.image_packet_num = self.image_packet_num.wrapping_add(1);
                                self.packet_num = self.packet_num.wrapping_add(1);
                                self.phase = Phase::TickStart;
                                Action::EndTick
                            }
                        }
                    },
                }
            },
            Event::Altitude { altitude_mm } => {
                let high = match altitude_mm {
                    Some(a) => a >= ALTITUDE_TRIGGER_MM,
                    None => false,
                };
                if high && !self.transmitting_image {
                    self.phase = Phase::AwaitCapture;
                    self.retries = 0;
                    Action::CaptureImage
                } else {
                    self.packet_num = self.packet_num.wrapping_add(1);
                    self.phase = Phase::TickStart;
                    Action::EndTick
                }
            },
            Event::Capture { image } => {
                match image {
                    Some(img) => {
                        let enc = Ssdv::new(
                            PacketType::NoFEC,
                            &self.header.source.call_sign,
                            self.image_id,
                            self.quality,
                            img,
                        );
                        self.encoder = Some(enc);
                        self.transmitting_image = true;
                        self.image_packet_num = 0;
                        self.current_packet = None;
                        self.packet_num = self.packet_num.wrapping_add(1);
                        self.phase = Phase::TickStart;
                        Action::EndTick
                    },
                    None => {
                        self.retries = self.retries + 1;
                        if self.retries < MAX_RETRIES {
                            Action::CaptureImage
                        } else {
                            self.packet_num = self.packet_num.wrapping_add(1);
                            self.phase = Phase::TickStart;
                            Action::EndTick
                        }
                    },
                }
            },
        }
    }

    /// Counts a failed location attempt and either retries the sensor
    /// read or gives the tick's transmission up.
    fn retry_sensors(&mut self) -> (a: Action)
        requires
            old(self).retries < MAX_RETRIES,
        ensures
            final(self).retries == old(self).retries + 1,
            final(self).transmitting_image == old(self).transmitting_image,
            final(self).image_packet_num == old(self).image_packet_num,
            final(self).packet_num == old(self).packet_num,
            final(self).header == old(self).header,
            final(self).image_id == old(self).image_id,
            final(self).quality == old(self).quality,
            final(self).encoder == old(self).encoder,
            final(self).current_packet == old(self).current_packet,
            old(self).retries + 1 < MAX_RETRIES ==> (final(self).phase is AwaitSensors && a
                is ReadSensors),
            old(self).retries + 1 >= MAX_RETRIES ==> (final(self).phase is AwaitAltitude && a
                is ReadAltitude),
    {
        self.retries = self.retries + 1;
        if self.retries < MAX_RETRIES {
            self.phase = Phase::AwaitSensors;
            Action::ReadSensors
        } else {
            self.phase = Phase::AwaitAltitude;
            Action::ReadAltitude
        }
    }
}

/// The altitude trigger, as a law of the control machine: an altitude
/// at or above the trigger with no image active starts exactly one
/// capture; while an image transmission is active, neither an altitude
/// event nor an image-transmit outcome can start another, and a
/// successful capture switches image transmission on.
pub proof fn lemma_altitude_trigger(c: Ctl, good: bool)
    ensures
        (c.phase is AwaitAltitude && !c.transmitting_image) ==> (ctl_step(c, true).1
            == ActionKind::CaptureImage && ctl_step(c, true).0.phase is AwaitCapture),
        (c.transmitting_image && (c.phase is AwaitAltitude || c.phase is AwaitImageTransmit))
            ==> ctl_step(c, good).1 != ActionKind::CaptureImage,
        (c.phase is AwaitCapture && good) ==> ctl_step(c, good).0.transmitting_image,
{
}

/// The cycle counter counts every tick, whatever the tick did: each
/// transition that ends a tick moves `packet_num` one on, and no other
/// transition touches it.
pub proof fn lemma_packet_num_counts_ticks(c: Ctl, good: bool)
    ensures
        !(c.phase is TickStart) ==> {
            let (c2, k) = ctl_step(c, good);
            &&& (k == ActionKind::EndTick ==> c2.packet_num == spec_next_counter(c.packet_num))
            &&& (k != ActionKind::EndTick ==> c2.packet_num == c.packet_num)
        },
{
}

/// One whole failed location attempt: the sensors read fine, the
/// transmission fails.
pub open spec fn ctl_attempt_fail(c: Ctl) -> Ctl {
    ctl_step(ctl_step(c, true).0, false).0
}

/// `n` failed location attempts in a row.
pub open spec fn ctl_fail_attempts(c: Ctl, n: nat) -> Ctl
    decreases n,
{
    if n == 0 {
        c
    } else {
        ctl_fail_attempts(ctl_attempt_fail(c), (n - 1) as nat)
    }
}

/// The retry budget, as a law of the control machine: starting a
/// location tick, a transmission that fails every time is attempted on
/// each of the first `MAX_RETRIES` rounds — each round still hands out
/// a `TransmitLocation` action — and the failure of round `MAX_RETRIES`
/// ends the attempts: the tick moves on to the altitude check with no
/// further frame handed out.
pub proof fn lemma_retry_budget(c: Ctl, n: nat)
    requires
        c.phase is AwaitSensors,
        c.retries + n <= MAX_RETRIES - 1,
    ensures
        ctl_fail_attempts(c, n) == (Ctl { retries: (c.retries + n) as usize, ..c }),
        ctl_step(ctl_fail_attempts(c, n), true).1 == ActionKind::TransmitLocation,
        c.retries + n == MAX_RETRIES - 1 ==> {
            let last = ctl_step(ctl_fail_attempts(c, n), true).0;
            &&& ctl_step(last, false).1 == ActionKind::ReadAltitude
            &&& ctl_step(last, false).0.phase is AwaitAltitude
        },
    decreases n,
{
    if n == 0 {
        assert(ctl_fail_attempts(c, 0) == c);
        assert(Ctl { retries: (c.retries + 0) as usize, ..c } == c);
    } else {
        let c1 = ctl_attempt_fail(c);
        assert(c1 == (Ctl { retries: (c.retries + 1) as usize, ..c }));
        lemma_retry_budget(c1, (n - 1) as nat);
        assert(ctl_fail_attempts(c, n) == ctl_fail_attempts(c1, (n - 1) as nat));
    }
}

} // verus!
