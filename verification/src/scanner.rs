//! The decisions of the standalone timed scanner: one scan at a time, the
//! devices it collected by address, a bound on the adapter events it reads,
//! and how the results of starting, collecting and stopping combine into
//! the scan's outcome. The runner awaits the adapter between the steps.
use vstd::prelude::*;

use crate::info::{DeviceInfo, DeviceInfoView};
use crate::machine::{known_index, lemma_known_index_found, lemma_known_index_none};
use crate::manager::record_spec;
use crate::types::{BleError, BleErrorView};

verus! {

/// Most adapter events one scan reads before it stops collecting.
pub const MAX_SCAN_EVENTS: usize = 1000;

/// What the scanner learned of a peripheral that an adapter event named:
/// its identifier text, local name and signal strength.
#[derive(Debug)]
pub struct ScannedDevice {
    pub address: String,
    pub name: Option<String>,
    pub rssi: Option<i16>,
}

/// An adapter event as the scanner sees it. A discovery or update carries
/// `None` where the peripheral or its properties could not be read.
#[derive(Debug)]
pub enum ScannedEvent {
    Discovered(Option<ScannedDevice>),
    Updated(Option<ScannedDevice>),
    Other,
}

/// The scanner, by value: whether a scan runs, and the collected devices
/// by address.
pub struct ScannerView {
    pub scanning: bool,
    pub devices: Seq<(Seq<char>, DeviceInfoView)>,
}

/// The scanner's state.
#[derive(Debug)]
pub struct BluetoothScanner {
    scanning: bool,
    devices: Vec<(String, DeviceInfo)>,
}

/// The by-value form of the collected devices.
pub open spec fn collected_view(v: Seq<(String, DeviceInfo)>) -> Seq<(Seq<char>, DeviceInfoView)> {
    Seq::new(v.len(), |i: int| (v[i].0@, v[i].1@))
}

impl View for BluetoothScanner {
    type V = ScannerView;

    closed spec fn view(&self) -> ScannerView {
        ScannerView { scanning: self.scanning, devices: collected_view(self.devices@) }
    }
}

/// The record that a scanned device gives: its address, name and signal
/// strength, and nothing else.
pub open spec fn scanned_record(address: Seq<char>, name: Option<Seq<char>>, rssi: Option<i16>) -> DeviceInfoView {
    DeviceInfoView {
        address,
        name,
        rssi,
        services: Seq::empty(),
        manufacturer_data: Seq::empty(),
        service_data: Seq::empty(),
        tx_power_level: None,
    }
}

/// The devices after an adapter event: a readable discovery or update is
/// recorded under its address, replacing the earlier record.
pub open spec fn collect_spec(devices: Seq<(Seq<char>, DeviceInfoView)>, e: ScannedEvent) -> Seq<(Seq<char>, DeviceInfoView)> {
    match e {
        ScannedEvent::Discovered(Some(d)) | ScannedEvent::Updated(Some(d)) => record_spec(
            devices,
            d.address@,
            scanned_record(d.address@, d.name.deep_view(), d.rssi),
        ),
        _ => devices,
    }
}

/// Each address occurs once among the collected devices.
pub open spec fn scanner_keys_unique(v: ScannerView) -> bool {
    forall|i: int, j: int| 0 <= i < j < v.devices.len() ==> v.devices[i].0 != v.devices[j].0
}

impl BluetoothScanner {
    #[verifier::type_invariant]
    spec fn keys_unique(self) -> bool {
        scanner_keys_unique(self@)
    }

    /// A scanner that is not scanning and has collected nothing.
    pub fn new() -> (r: Self)
        ensures
            !r@.scanning,
            r@.devices.len() == 0,
            scanner_keys_unique(r@),
    {
        let r = BluetoothScanner { scanning: false, devices: Vec::new() };
        assert(r@.devices =~= Seq::<(Seq<char>, DeviceInfoView)>::empty());
        r
    }

    /// Begins a scan: refused with `ScanFailed("Already scanning")` while one
    /// runs, which changes nothing; otherwise the scanner is scanning and the
    /// previous results are dropped.
    pub fn begin_scan(&mut self) -> (r: Result<(), BleError>)
        ensures
            old(self)@.scanning ==> {
                &&& r matches Err(e) && e@ == BleErrorView::ScanFailed("Already scanning"@)
                &&& final(self)@ == old(self)@
            },
            !old(self)@.scanning ==> {
                &&& r is Ok
                &&& final(self)@.scanning
                &&& final(self)@.devices.len() == 0
            },
            scanner_keys_unique(final(self)@),
    {
        proof {
            use_type_invariant(&*self);
        }
        if self.scanning {
            return Err(BleError::ScanFailed(String::from_str("Already scanning")));
        }
        self.devices = Vec::new();
        self.set_scanning(true);
        assert(self@.devices =~= Seq::<(Seq<char>, DeviceInfoView)>::empty());
        Ok(())
    }

    /// The outcome of asking the adapter to start scanning, given its error
    /// text on failure: a failure is `ScanFailed` with that text, and the
    /// scanner stays marked as scanning.
    pub fn scan_started(&self, result: Result<(), String>) -> (r: Result<(), BleError>)
        ensures
            match result {
                Ok(()) => r is Ok,
                Err(m) => r matches Err(e) && e@ == BleErrorView::ScanFailed(m@),
            },
    {
        match result {
            Ok(()) => Ok(()),
            Err(message) => Err(BleError::ScanFailed(message)),
        }
    }

    /// The outcome of opening the adapter's event stream, given its error
    /// text on failure.
    pub fn events_opened(&self, result: Result<(), String>) -> (r: Result<(), BleError>)
        ensures
            match result {
                Ok(()) => r is Ok,
                Err(m) => r matches Err(e) && e@ == BleErrorView::ScanFailed(
                    "Failed to get events: "@ + m@,
                ),
            },
    {
        match result {
            Ok(()) => Ok(()),
            Err(message) => {
                let mut text = String::from_str("Failed to get events: ");
                text.append(message.as_str());
                Err(BleError::ScanFailed(text))
            },
        }
    }

    /// Reads one adapter event, the `seen + 1`-th of the scan. Past
    /// `MAX_SCAN_EVENTS` events collection stops and the event is dropped
    /// (`None`); otherwise the event is collected and the new count returned.
    pub fn collect_event(&mut self, seen: usize, event: ScannedEvent) -> (r: Option<usize>)
        requires
            seen <= MAX_SCAN_EVENTS,
        ensures
            seen + 1 > MAX_SCAN_EVENTS ==> r is None && final(self)@ == old(self)@,
            seen + 1 <= MAX_SCAN_EVENTS ==> {
                &&& r == Some((seen + 1) as usize)
                &&& final(self)@.scanning == old(self)@.scanning
                &&& final(self)@.devices == collect_spec(old(self)@.devices, event)
            },
            scanner_keys_unique(final(self)@),
    {
        proof {
            use_type_invariant(&*self);
        }
        let count = seen + 1;
        if count > MAX_SCAN_EVENTS {
            return None;
        }
        let ghost dv = self@.devices;
        let ghost ev = event;
        match event {
            ScannedEvent::Discovered(Some(device)) | ScannedEvent::Updated(Some(device)) => {
                self.record(device);
            },
            _ => {},
        }
        assert(self@.devices == collect_spec(dv, ev));
        proof {
            use_type_invariant(&*self);
        }
        Some(count)
    }

    fn set_scanning(&mut self, scanning: bool)
        ensures
            final(self)@ == (ScannerView { scanning, ..old(self)@ }),
    {
        proof {
            use_type_invariant(&*self);
        }
        let ghost before = self@;
        let mut devices: Vec<(String, DeviceInfo)> = Vec::new();
        std::mem::swap(&mut devices, &mut self.devices);
        assert(collected_view(devices@) == before.devices);
        assert(self@.devices =~= Seq::<(Seq<char>, DeviceInfoView)>::empty());
        self.scanning = scanning;
        assert(scanner_keys_unique(ScannerView { scanning, devices: collected_view(devices@) }));
        self.devices = devices;
    }

    /// The position of the record of `key`, which is its first one.
    fn find_collected(&self, key: &String) -> (r: Option<usize>)
        ensures
            match r {
                Some(j) => {
                    &&& j < self.devices.len()
                    &&& self@.devices[j as int].0 == key@
                    &&& forall|m: int| 0 <= m < j ==> self@.devices[m].0 != key@
                },
                None => forall|m: int| 0 <= m < self@.devices.len() ==> self@.devices[m].0 != key@,
            },
    {
        let ghost known = self@.devices;
        for k in 0..self.devices.len()
            invariant
                known == collected_view(self.devices@),
                known == self@.devices,
                forall|m: int| 0 <= m < k ==> known[m].0 != key@,
        {
            if self.devices[k].0.eq(key) {
                return Some(k);
            }
        }
        None
    }

    fn record(&mut self, device: ScannedDevice)
        ensures
            final(self)@ == (ScannerView {
                devices: record_spec(
                    old(self)@.devices,
                    device.address@,
                    scanned_record(device.address@, device.name.deep_view(), device.rssi),
                ),
                ..old(self)@
            }),
    {
        proof {
            use_type_invariant(&*self);
        }
        let ghost known = self@.devices;
        let ghost info_view = scanned_record(device.address@, device.name.deep_view(), device.rssi);
        let key = device.address.clone();
        let info = DeviceInfo::new(device.address, device.name, device.rssi, Vec::new(), Vec::new(), Vec::new(), None);
        assert(info@.services =~= Seq::<Seq<char>>::empty());
        assert(info@.manufacturer_data =~= Seq::<(u16, Seq<u8>)>::empty());
        assert(info@.service_data =~= Seq::<(Seq<char>, Seq<u8>)>::empty());
        assert(info@ == info_view);
        let found = self.find_collected(&key);
        let mut devices: Vec<(String, DeviceInfo)> = Vec::new();
        std::mem::swap(&mut devices, &mut self.devices);
        match found {
            Some(j) => {
                proof {
                    lemma_known_index_found(known, key@, j as int);
                }
                devices.set(j, (key, info));
                assert(collected_view(devices@) =~= known.update(j as int, (device.address@, info_view)));
            },
            None => {
                proof {
                    lemma_known_index_none(known, key@);
                }
                devices.push((key, info));
                assert(collected_view(devices@) =~= known.push((device.address@, info_view)));
            },
        }
        self.devices = devices;
    }

    /// Ends a scan, given what stopping the adapter reported and what the
    /// bounded collection gave (`None` when the scan time ran out first,
    /// which is the ordinary end). The scanner stops scanning; a failed stop
    /// wins over the collection's outcome.
    pub fn finish_scan(&mut self, stopped: Result<(), String>, collected: Option<Result<(), BleError>>) -> (r: Result<(), BleError>)
        ensures
            !final(self)@.scanning,
            final(self)@.devices == old(self)@.devices,
            match stopped {
                Err(m) => r matches Err(e) && e@ == BleErrorView::ScanFailed("Failed to stop scan: "@ + m@),
                Ok(()) => match collected {
                    Some(Err(c)) => r matches Err(e) && e@ == c@,
                    _ => r is Ok,
                },
            },
            scanner_keys_unique(final(self)@),
    {
        proof {
            use_type_invariant(&*self);
        }
        self.set_scanning(false);
        match stopped {
            Err(message) => {
                let mut text = String::from_str("Failed to stop scan: ");
                text.append(message.as_str());
                Err(BleError::ScanFailed(text))
            },
            Ok(()) => match collected {
                Some(Err(error)) => Err(error),
                _ => Ok(()),
            },
        }
    }

    /// Stops a running scan: answers whether the adapter must be told to
    /// stop; a scanner that is not scanning changes nothing.
    pub fn stop_scan(&mut self) -> (r: bool)
        ensures
            r == old(self)@.scanning,
            !final(self)@.scanning,
            final(self)@.devices == old(self)@.devices,
            scanner_keys_unique(final(self)@),
    {
        proof {
            use_type_invariant(&*self);
        }
        if !self.scanning {
            return false;
        }
        self.set_scanning(false);
        true
    }

    /// The collected devices, in the order first collected.
    pub fn get_devices(&self) -> (r: Vec<DeviceInfo>)
        ensures
            r.len() == self@.devices.len(),
            forall|i: int| 0 <= i < r.len() ==> #[trigger] r@[i]@ == self@.devices[i].1,
    {
        let mut out: Vec<DeviceInfo> = Vec::new();
        for i in 0..self.devices.len()
            invariant
                out.len() == i,
                forall|j: int| 0 <= j < i ==> #[trigger] out@[j]@ == self.devices@[j].1@,
        {
            out.push(self.devices[i].1.clone());
        }
        out
    }

    /// Whether a scan runs.
    pub fn is_scanning(&self) -> (r: bool)
        ensures
            r == self@.scanning,
    {
        self.scanning
    }
}

} // verus!
