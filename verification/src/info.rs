use vstd::prelude::*;

verus! {

/// The content of one scan record, by value.
pub struct DeviceInfoView {
    pub address: Seq<char>,
    pub name: Option<Seq<char>>,
    pub rssi: Option<i16>,
    pub services: Seq<Seq<char>>,
    pub manufacturer_data: Seq<(u16, Seq<u8>)>,
    pub service_data: Seq<(Seq<char>, Seq<u8>)>,
    pub tx_power_level: Option<i16>,
}

/// What a scan reported of one device. `manufacturer_data` and `service_data`
/// are maps kept as lists of entries; they are read as maps (`entry_of`), so
/// their order carries no meaning.
#[derive(Debug)]
pub struct DeviceInfo {
    pub address: String,
    pub name: Option<String>,
    pub rssi: Option<i16>,
    pub services: Vec<String>,
    pub manufacturer_data: Vec<(u16, Vec<u8>)>,
    pub service_data: Vec<(String, Vec<u8>)>,
    pub tx_power_level: Option<i16>,
}

impl View for DeviceInfo {
    type V = DeviceInfoView;

    open spec fn view(&self) -> DeviceInfoView {
        DeviceInfoView {
            address: self.address@,
            name: self.name.deep_view(),
            rssi: self.rssi,
            services: self.services.deep_view(),
            manufacturer_data: self.manufacturer_data.deep_view(),
            service_data: self.service_data.deep_view(),
            tx_power_level: self.tx_power_level,
        }
    }
}

/// A copy of a string with the same content.
pub fn copy_string(s: &String) -> (r: String)
    ensures
        r@ == s@,
{
    s.clone()
}

/// A copy of an optional string with the same content.
pub fn copy_opt_string(s: &Option<String>) -> (r: Option<String>)
    ensures
        r.deep_view() == s.deep_view(),
{
    match s {
        Some(v) => Some(v.clone()),
        None => None,
    }
}

/// A copy of a byte vector with the same content.
pub fn copy_bytes(v: &Vec<u8>) -> (r: Vec<u8>)
    ensures
        r@ == v@,
{
    let mut out: Vec<u8> = Vec::new();
    for i in 0..v.len()
        invariant
            out@ == v@.subrange(0, i as int),
    {
        out.push(v[i]);
    }
    assert(v@.subrange(0, v.len() as int) =~= v@);
    out
}

/// A copy of a list of strings with the same content.
pub fn copy_strings(v: &Vec<String>) -> (r: Vec<String>)
    ensures
        r.deep_view() == v.deep_view(),
{
    let mut out: Vec<String> = Vec::new();
    for i in 0..v.len()
        invariant
            out.len() == i,
            forall|j: int| 0 <= j < i ==> out@[j]@ == v@[j]@,
    {
        out.push(v[i].clone());
    }
    assert(out.deep_view() =~= v.deep_view());
    out
}

/// Whether two strings have the same content.
pub fn same_text(a: &String, b: &String) -> (r: bool)
    ensures
        r == (a@ == b@),
{
    a.eq(b)
}

/// A byte vector's element-wise view is its plain view.
pub proof fn lemma_bytes_deep_view(v: &Vec<u8>)
    ensures
        v.deep_view() == v@,
{
    assert(v.deep_view() =~= v@);
}

/// Whether two byte vectors have the same content.
pub fn same_bytes(a: &Vec<u8>, b: &Vec<u8>) -> (r: bool)
    ensures
        r == (a@ == b@),
{
    if a.len() != b.len() {
        return false;
    }
    for i in 0..a.len()
        invariant
            a.len() == b.len(),
            forall|j: int| 0 <= j < i ==> a@[j] == b@[j],
    {
        if a[i] != b[i] {
            return false;
        }
    }
    assert(a@ =~= b@);
    true
}

fn same_opt_text(a: &Option<String>, b: &Option<String>) -> (r: bool)
    ensures
        r == (a.deep_view() == b.deep_view()),
{
    match (a, b) {
        (Some(x), Some(y)) => x.eq(y),
        (None, None) => true,
        _ => false,
    }
}

fn same_strings(a: &Vec<String>, b: &Vec<String>) -> (r: bool)
    ensures
        r == (a.deep_view() == b.deep_view()),
{
    if a.len() != b.len() {
        assert(a.deep_view().len() != b.deep_view().len());
        return false;
    }
    for i in 0..a.len()
        invariant
            a.len() == b.len(),
            forall|j: int| 0 <= j < i ==> a@[j].deep_view() == b@[j].deep_view(),
    {
        if !same_text(&a[i], &b[i]) {
            assert(a.deep_view()[i as int] != b.deep_view()[i as int]);
            return false;
        }
    }
    assert(a.deep_view() =~= b.deep_view());
    true
}

/// The value a list of entries holds under key `k`, read as a map: the
/// value of the last entry with that key, as inserting the entries in turn
/// into a map would keep it; `None` where no entry has the key.
pub open spec fn entry_of<K, V>(entries: Seq<(K, V)>, k: K) -> Option<V>
    decreases entries.len(),
{
    if entries.len() == 0 {
        None
    } else if entries.last().0 == k {
        Some(entries.last().1)
    } else {
        entry_of(entries.drop_last(), k)
    }
}

/// Whether two lists of entries hold the same map, whatever their order.
pub open spec fn same_entries<K, V>(a: Seq<(K, V)>, b: Seq<(K, V)>) -> bool {
    forall|k: K| #[trigger] entry_of(a, k) == entry_of(b, k)
}

/// Whether two scan records have the same content. Manufacturer and service
/// data are compared as maps: the same entries in another order are the
/// same record.
pub open spec fn same_record(a: DeviceInfoView, b: DeviceInfoView) -> bool {
    &&& a.address == b.address
    &&& a.name == b.name
    &&& a.rssi == b.rssi
    &&& a.services == b.services
    &&& same_entries(a.manufacturer_data, b.manufacturer_data)
    &&& same_entries(a.service_data, b.service_data)
    &&& a.tx_power_level == b.tx_power_level
}

/// The value under `k` is that of the last entry with key `k`.
pub proof fn lemma_entry_last<K, V>(s: Seq<(K, V)>, k: K, j: int)
    requires
        0 <= j < s.len(),
        s[j].0 == k,
        forall|m: int| j < m < s.len() ==> s[m].0 != k,
    ensures
        entry_of(s, k) == Some(s[j].1),
    decreases s.len(),
{
    if j < s.len() - 1 {
        assert(s.last() == s[s.len() - 1]);
        lemma_entry_last(s.drop_last(), k, j);
    }
}

/// No entry has key `k`, so there is no value under it.
pub proof fn lemma_entry_none<K, V>(s: Seq<(K, V)>, k: K)
    requires
        forall|m: int| 0 <= m < s.len() ==> s[m].0 != k,
    ensures
        entry_of(s, k) is None,
    decreases s.len(),
{
    if s.len() > 0 {
        assert(s.last() == s[s.len() - 1]);
        lemma_entry_none(s.drop_last(), k);
    }
}

/// The position of the last manufacturer entry with company `k`.
fn manufacturer_entry(v: &Vec<(u16, Vec<u8>)>, k: u16) -> (r: Option<usize>)
    ensures
        match r {
            Some(j) => j < v.len() && entry_of(v.deep_view(), k) == Some(v.deep_view()[j as int].1)
                && v.deep_view()[j as int].1 == v@[j as int].1@,
            None => entry_of(v.deep_view(), k) is None,
        },
{
    let ghost d = v.deep_view();
    let mut i = v.len();
    while i > 0
        invariant
            i <= v.len(),
            d == v.deep_view(),
            forall|m: int| i <= m < v.len() ==> d[m].0 != k,
        decreases i,
    {
        i = i - 1;
        if v[i].0 == k {
            proof {
                lemma_entry_last(d, k, i as int);
                lemma_bytes_deep_view(&v@[i as int].1);
            }
            return Some(i);
        }
    }
    proof {
        lemma_entry_none(d, k);
    }
    None
}

/// The position of the last service-data entry with UUID `k`.
fn service_entry(v: &Vec<(String, Vec<u8>)>, k: &String) -> (r: Option<usize>)
    ensures
        match r {
            Some(j) => j < v.len() && entry_of(v.deep_view(), k@) == Some(v.deep_view()[j as int].1)
                && v.deep_view()[j as int].1 == v@[j as int].1@,
            None => entry_of(v.deep_view(), k@) is None,
        },
{
    let ghost d = v.deep_view();
    let mut i = v.len();
    while i > 0
        invariant
            i <= v.len(),
            d == v.deep_view(),
            forall|m: int| i <= m < v.len() ==> d[m].0 != k@,
        decreases i,
    {
        i = i - 1;
        if same_text(&v[i].0, k) {
            proof {
                lemma_entry_last(d, k@, i as int);
                lemma_bytes_deep_view(&v@[i as int].1);
            }
            return Some(i);
        }
    }
    proof {
        lemma_entry_none(d, k@);
    }
    None
}

/// Whether `a` and `b` hold the same bytes under company `k`.
fn same_manufacturer_entry(a: &Vec<(u16, Vec<u8>)>, b: &Vec<(u16, Vec<u8>)>, k: u16) -> (r: bool)
    ensures
        r == (entry_of(a.deep_view(), k) == entry_of(b.deep_view(), k)),
{
    match (manufacturer_entry(a, k), manufacturer_entry(b, k)) {
        (Some(x), Some(y)) => same_bytes(&a[x].1, &b[y].1),
        (None, None) => true,
        _ => false,
    }
}

/// Whether `a` and `b` hold the same bytes under service UUID `k`.
fn same_service_entry(a: &Vec<(String, Vec<u8>)>, b: &Vec<(String, Vec<u8>)>, k: &String) -> (r: bool)
    ensures
        r == (entry_of(a.deep_view(), k@) == entry_of(b.deep_view(), k@)),
{
    match (service_entry(a, k), service_entry(b, k)) {
        (Some(x), Some(y)) => same_bytes(&a[x].1, &b[y].1),
        (None, None) => true,
        _ => false,
    }
}

fn same_manufacturer_data(a: &Vec<(u16, Vec<u8>)>, b: &Vec<(u16, Vec<u8>)>) -> (r: bool)
    ensures
        r == same_entries(a.deep_view(), b.deep_view()),
{
    let ghost da = a.deep_view();
    let ghost db = b.deep_view();
    for i in 0..a.len()
        invariant
            da == a.deep_view(),
            db == b.deep_view(),
            forall|j: int| 0 <= j < i ==> entry_of(da, (#[trigger] da[j]).0) == entry_of(db, da[j].0),
    {
        if !same_manufacturer_entry(a, b, a[i].0) {
            assert(entry_of(da, da[i as int].0) != entry_of(db, da[i as int].0));
            return false;
        }
    }
    for i in 0..b.len()
        invariant
            da == a.deep_view(),
            db == b.deep_view(),
            forall|j: int| 0 <= j < a.len() ==> entry_of(da, (#[trigger] da[j]).0) == entry_of(db, da[j].0),
            forall|j: int| 0 <= j < i ==> entry_of(da, (#[trigger] db[j]).0) == entry_of(db, db[j].0),
    {
        if !same_manufacturer_entry(a, b, b[i].0) {
            assert(entry_of(da, db[i as int].0) != entry_of(db, db[i as int].0));
            return false;
        }
    }
    assert forall|k: u16| #[trigger] entry_of(da, k) == entry_of(db, k) by {
        if exists|j: int| 0 <= j < da.len() && da[j].0 == k {
            let j = choose|j: int| 0 <= j < da.len() && da[j].0 == k;
            assert(entry_of(da, da[j].0) == entry_of(db, da[j].0));
        } else if exists|j: int| 0 <= j < db.len() && db[j].0 == k {
            let j = choose|j: int| 0 <= j < db.len() && db[j].0 == k;
            assert(entry_of(da, db[j].0) == entry_of(db, db[j].0));
        } else {
            lemma_entry_none(da, k);
            lemma_entry_none(db, k);
        }
    }
    true
}

fn same_service_data(a: &Vec<(String, Vec<u8>)>, b: &Vec<(String, Vec<u8>)>) -> (r: bool)
    ensures
        r == same_entries(a.deep_view(), b.deep_view()),
{
    let ghost da = a.deep_view();
    let ghost db = b.deep_view();
    for i in 0..a.len()
        invariant
            da == a.deep_view(),
            db == b.deep_view(),
            forall|j: int| 0 <= j < i ==> entry_of(da, (#[trigger] da[j]).0) == entry_of(db, da[j].0),
    {
        if !same_service_entry(a, b, &a[i].0) {
            assert(entry_of(da, da[i as int].0) != entry_of(db, da[i as int].0));
            return false;
        }
    }
    for i in 0..b.len()
        invariant
            da == a.deep_view(),
            db == b.deep_view(),
            forall|j: int| 0 <= j < a.len() ==> entry_of(da, (#[trigger] da[j]).0) == entry_of(db, da[j].0),
            forall|j: int| 0 <= j < i ==> entry_of(da, (#[trigger] db[j]).0) == entry_of(db, db[j].0),
    {
        if !same_service_entry(a, b, &b[i].0) {
            assert(entry_of(da, db[i as int].0) != entry_of(db, db[i as int].0));
            return false;
        }
    }
    assert forall|k: Seq<char>| #[trigger] entry_of(da, k) == entry_of(db, k) by {
        if exists|j: int| 0 <= j < da.len() && da[j].0 == k {
            let j = choose|j: int| 0 <= j < da.len() && da[j].0 == k;
            assert(entry_of(da, da[j].0) == entry_of(db, da[j].0));
        } else if exists|j: int| 0 <= j < db.len() && db[j].0 == k {
            let j = choose|j: int| 0 <= j < db.len() && db[j].0 == k;
            assert(entry_of(da, db[j].0) == entry_of(db, db[j].0));
        } else {
            lemma_entry_none(da, k);
            lemma_entry_none(db, k);
        }
    }
    true
}

fn copy_manufacturer_data(v: &Vec<(u16, Vec<u8>)>) -> (r: Vec<(u16, Vec<u8>)>)
    ensures
        r.deep_view() == v.deep_view(),
{
    let mut out: Vec<(u16, Vec<u8>)> = Vec::new();
    for i in 0..v.len()
        invariant
            out.len() == i,
            forall|j: int| 0 <= j < i ==> out@[j].deep_view() == v@[j].deep_view(),
    {
        let bytes = copy_bytes(&v[i].1);
        proof {
            lemma_bytes_deep_view(&bytes);
            lemma_bytes_deep_view(&v@[i as int].1);
        }
        out.push((v[i].0, bytes));
    }
    assert(out.deep_view() =~= v.deep_view());
    out
}

fn copy_service_data(v: &Vec<(String, Vec<u8>)>) -> (r: Vec<(String, Vec<u8>)>)
    ensures
        r.deep_view() == v.deep_view(),
{
    let mut out: Vec<(String, Vec<u8>)> = Vec::new();
    for i in 0..v.len()
        invariant
            out.len() == i,
            forall|j: int| 0 <= j < i ==> out@[j].deep_view() == v@[j].deep_view(),
    {
        let bytes = copy_bytes(&v[i].1);
        proof {
            lemma_bytes_deep_view(&bytes);
            lemma_bytes_deep_view(&v@[i as int].1);
        }
        out.push((v[i].0.clone(), bytes));
    }
    assert(out.deep_view() =~= v.deep_view());
    out
}

impl DeviceInfo {
    /// A scan record from its parts.
    pub fn new(
        address: String,
        name: Option<String>,
        rssi: Option<i16>,
        services: Vec<String>,
        manufacturer_data: Vec<(u16, Vec<u8>)>,
        service_data: Vec<(String, Vec<u8>)>,
        tx_power_level: Option<i16>,
    ) -> (r: Self)
        ensures
            r.address == address,
            r.name == name,
            r.rssi == rssi,
            r.services == services,
            r.manufacturer_data == manufacturer_data,
            r.service_data == service_data,
            r.tx_power_level == tx_power_level,
    {
        DeviceInfo { address, name, rssi, services, manufacturer_data, service_data, tx_power_level }
    }

    /// Whether two records have the same content, with manufacturer and
    /// service data compared as maps.
    pub fn same_as(&self, other: &DeviceInfo) -> (r: bool)
        ensures
            r == same_record(self@, other@),
    {
        let r = same_text(&self.address, &other.address)
            && same_opt_text(&self.name, &other.name)
            && self.rssi == other.rssi
            && same_strings(&self.services, &other.services)
            && same_manufacturer_data(&self.manufacturer_data, &other.manufacturer_data)
            && same_service_data(&self.service_data, &other.service_data)
            && self.tx_power_level == other.tx_power_level;
        r
    }
}

impl Clone for DeviceInfo {
    fn clone(&self) -> (r: Self)
        ensures
            r@ == self@,
    {
        DeviceInfo {
            address: self.address.clone(),
            name: copy_opt_string(&self.name),
            rssi: self.rssi,
            services: copy_strings(&self.services),
            manufacturer_data: copy_manufacturer_data(&self.manufacturer_data),
            service_data: copy_service_data(&self.service_data),
            tx_power_level: self.tx_power_level,
        }
    }
}

/// What an adapter reported of itself, by value.
pub struct AdapterInfoView {
    pub name: Seq<char>,
    pub address: Option<Seq<char>>,
}

/// The system adapter's name and, where known, address.
#[derive(Debug)]
pub struct AdapterInfo {
    pub name: String,
    pub address: Option<String>,
}

impl View for AdapterInfo {
    type V = AdapterInfoView;

    open spec fn view(&self) -> AdapterInfoView {
        AdapterInfoView { name: self.name@, address: self.address.deep_view() }
    }
}

impl AdapterInfo {
    /// Adapter information from its parts.
    pub fn new(name: String, address: Option<String>) -> (r: Self)
        ensures
            r.name == name,
            r.address == address,
    {
        AdapterInfo { name, address }
    }
}

impl Clone for AdapterInfo {
    fn clone(&self) -> (r: Self)
        ensures
            r@ == self@,
    {
        AdapterInfo { name: self.name.clone(), address: copy_opt_string(&self.address) }
    }
}

/// The GATT property flags of a characteristic.
#[derive(Clone, Copy, Debug, PartialEq, Eq, Structural)]
pub struct CharacteristicProperties {
    pub read: bool,
    pub write: bool,
    pub write_without_response: bool,
    pub notify: bool,
    pub indicate: bool,
}

/// A discovered characteristic, by value.
pub struct CharacteristicView {
    pub uuid: Seq<char>,
    pub properties: CharacteristicProperties,
}

/// A discovered characteristic: its UUID and property flags.
#[derive(Debug)]
pub struct BleCharacteristicInfo {
    pub uuid: String,
    pub properties: CharacteristicProperties,
}

impl View for BleCharacteristicInfo {
    type V = CharacteristicView;

    open spec fn view(&self) -> CharacteristicView {
        CharacteristicView { uuid: self.uuid@, properties: self.properties }
    }
}

impl BleCharacteristicInfo {
    /// Characteristic information from its parts.
    pub fn new(uuid: String, properties: CharacteristicProperties) -> (r: Self)
        ensures
            r.uuid == uuid,
            r.properties == properties,
    {
        BleCharacteristicInfo { uuid, properties }
    }
}

impl Clone for BleCharacteristicInfo {
    fn clone(&self) -> (r: Self)
        ensures
            r@ == self@,
    {
        BleCharacteristicInfo { uuid: self.uuid.clone(), properties: self.properties }
    }
}

/// A discovered service, by value.
pub struct ServiceView {
    pub uuid: Seq<char>,
    pub characteristics: Seq<CharacteristicView>,
}

/// A discovered GATT service and its characteristics.
#[derive(Debug)]
pub struct BleServiceInfo {
    pub uuid: String,
    pub characteristics: Vec<BleCharacteristicInfo>,
}

/// The by-value content of a list of characteristics.
pub open spec fn characteristics_view(v: Seq<BleCharacteristicInfo>) -> Seq<CharacteristicView> {
    Seq::new(v.len(), |i: int| v[i]@)
}

/// The by-value content of a list of services.
pub open spec fn services_view(v: Seq<BleServiceInfo>) -> Seq<ServiceView> {
    Seq::new(v.len(), |i: int| v[i]@)
}

impl View for BleServiceInfo {
    type V = ServiceView;

    open spec fn view(&self) -> ServiceView {
        ServiceView { uuid: self.uuid@, characteristics: characteristics_view(self.characteristics@) }
    }
}

impl BleServiceInfo {
    /// Service information from its parts.
    pub fn new(uuid: String, characteristics: Vec<BleCharacteristicInfo>) -> (r: Self)
        ensures
            r.uuid == uuid,
            r.characteristics == characteristics,
    {
        BleServiceInfo { uuid, characteristics }
    }
}

impl Clone for BleServiceInfo {
    fn clone(&self) -> (r: Self)
        ensures
            r@ == self@,
    {
        let mut characteristics: Vec<BleCharacteristicInfo> = Vec::new();
        for i in 0..self.characteristics.len()
            invariant
                characteristics.len() == i,
                forall|j: int| 0 <= j < i ==> characteristics@[j]@ == self.characteristics@[j]@,
        {
            characteristics.push(self.characteristics[i].clone());
        }
        let r = BleServiceInfo { uuid: self.uuid.clone(), characteristics };
        assert(characteristics_view(r.characteristics@) =~= characteristics_view(self.characteristics@));
        r
    }
}

/// A copy of a list of services with the same content.
pub fn copy_services(v: &Vec<BleServiceInfo>) -> (r: Vec<BleServiceInfo>)
    ensures
        services_view(r@) == services_view(v@),
{
    let mut out: Vec<BleServiceInfo> = Vec::new();
    for i in 0..v.len()
        invariant
            out.len() == i,
            forall|j: int| 0 <= j < i ==> out@[j]@ == v@[j]@,
    {
        out.push(v[i].clone());
    }
    assert(services_view(out@) =~= services_view(v@));
    out
}

} // verus!
