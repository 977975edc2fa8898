use crate::object_id::{is_object_id_text, object_id_bytes, RecordId};
use vstd::prelude::*;

verus! {

/// A seat as the mathematical model sees it: its label and whether it is free.
pub type SeatView = (Seq<char>, bool);

/// One seat of a vehicle on a travel date.
#[derive(Clone, Debug)]
pub struct Seat {
    pub seat_number: String,
    pub is_available: bool,
}

impl View for Seat {
    type V = SeatView;

    open spec fn view(&self) -> SeatView {
        (self.seat_number@, self.is_available)
    }
}

/// One element of the seat array of a stored availability record, as it was
/// read: a sub-document whose two fields may each be missing or of another
/// type, or a value that is not a sub-document at all.
#[derive(Clone, Debug)]
pub enum StoredSeat {
    Entry { seat_number: Option<String>, is_available: Option<bool> },
    NotADocument,
}

/// The per-date override of a vehicle's seat map, as read from the store.
/// `seats` is `None` where the record holds no seat array.
#[derive(Clone, Debug)]
pub struct AvailabilityRecord {
    pub seats: Option<Vec<StoredSeat>>,
}

/// Why a resolution failed.
#[derive(Clone, Copy, Debug, PartialEq, Eq, Structural)]
pub enum ResolveError {
    /// The vehicle identifier is not 24 hexadecimal digits.
    InvalidVehicleId,
    /// A store lookup failed.
    StoreUnavailable,
}

/// A failed store lookup.
#[derive(Clone, Copy, Debug, PartialEq, Eq, Structural)]
pub struct StoreError;

pub open spec fn seat_views(s: Seq<Seat>) -> Seq<SeatView> {
    s.map_values(|x: Seat| x@)
}

/// The seat that a stored element becomes: a missing or mistyped label reads
/// as empty, a missing or mistyped flag as taken; an element that is not a
/// sub-document gives none.
pub open spec fn stored_seat_view(e: StoredSeat) -> Option<SeatView> {
    match e {
        StoredSeat::Entry { seat_number, is_available } => Some(
            (
                match seat_number {
                    Some(s) => s@,
                    None => Seq::empty(),
                },
                match is_available {
                    Some(b) => b,
                    None => false,
                },
            ),
        ),
        StoredSeat::NotADocument => None,
    }
}

/// The seats a stored array yields, in stored order.
pub open spec fn kept_seats(entries: Seq<StoredSeat>) -> Seq<SeatView>
    decreases entries.len(),
{
    if entries.len() == 0 {
        Seq::empty()
    } else {
        let rest = kept_seats(entries.drop_last());
        match stored_seat_view(entries.last()) {
            Some(v) => rest.push(v),
            None => rest,
        }
    }
}

/// Character of one decimal digit.
pub open spec fn digit_char(d: nat) -> char {
    (('0' as u32) + d) as char
}

/// Decimal text of a natural number, without leading zeros.
pub open spec fn decimal(n: nat) -> Seq<char>
    decreases n,
{
    if n < 10 {
        seq![digit_char(n)]
    } else {
        decimal(n / 10).push(digit_char(n % 10))
    }
}

/// The default seat map of a vehicle with `total_seats` seats: labels "1"
/// up to the count, every seat free.
pub open spec fn synthesized_seats(total_seats: int) -> Seq<SeatView> {
    Seq::new(
        if total_seats > 0 {
            total_seats as nat
        } else {
            0
        },
        |i: int| (decimal((i + 1) as nat), true),
    )
}

/// Whether a record carries a seat array (possibly empty).
pub open spec fn has_seat_list(record: Option<AvailabilityRecord>) -> bool {
    record is Some && record->Some_0.seats is Some
}

/// The seat map of a vehicle on a date, given both lookups: the stored array
/// where there is one, else the default map of the vehicle, else nothing.
pub open spec fn resolved_seats(
    record: Option<AvailabilityRecord>,
    total_seats: Option<i32>,
) -> Seq<SeatView> {
    if has_seat_list(record) {
        kept_seats(record->Some_0.seats->Some_0@)
    } else {
        match total_seats {
            Some(n) => synthesized_seats(n as int),
            None => Seq::empty(),
        }
    }
}

/// The outcome of resolving the seat map for the vehicle whose identifier
/// text is `id`, given what the record lookup and, where it is made, the
/// vehicle lookup return. The vehicle lookup only counts where the record
/// lookup gave no seat array.
pub open spec fn resolution(
    id: Seq<char>,
    record: Result<Option<AvailabilityRecord>, StoreError>,
    vehicle: Result<Option<i32>, StoreError>,
) -> Result<Seq<SeatView>, ResolveError> {
    if !is_object_id_text(id) {
        Err(ResolveError::InvalidVehicleId)
    } else {
        match record {
            Err(_) => Err(ResolveError::StoreUnavailable),
            Ok(rec) => if has_seat_list(rec) {
                Ok(resolved_seats(rec, None))
            } else {
                match vehicle {
                    Err(_) => Err(ResolveError::StoreUnavailable),
                    Ok(v) => Ok(resolved_seats(None, v)),
                }
            },
        }
    }
}

pub open spec fn outcome_view(r: Result<Vec<Seat>, ResolveError>) -> Result<
    Seq<SeatView>,
    ResolveError,
> {
    match r {
        Ok(v) => Ok(seat_views(v@)),
        Err(e) => Err(e),
    }
}

/// Text of one decimal digit.
fn digit_str(d: u32) -> (r: &'static str)
    requires
        d < 10,
    ensures
        r@ == seq![digit_char(d as nat)],
{
    proof {
        reveal_strlit("0");
        reveal_strlit("1");
        reveal_strlit("2");
        reveal_strlit("3");
        reveal_strlit("4");
        reveal_strlit("5");
        reveal_strlit("6");
        reveal_strlit("7");
        reveal_strlit("8");
        reveal_strlit("9");
    }
    let r = match d {
        0 => "0",
        1 => "1",
        2 => "2",
        3 => "3",
        4 => "4",
        5 => "5",
        6 => "6",
        7 => "7",
        8 => "8",
        _ => "9",
    };
    assert(r@ =~= seq![digit_char(d as nat)]);
    r
}

/// Appends the decimal text of `n` to `s`.
pub fn push_decimal(s: &mut String, n: u32)
    ensures
        final(s)@ == old(s)@ + decimal(n as nat),
    decreases n,
{
    if n >= 10 {
        push_decimal(s, n / 10);
        s.append(digit_str(n % 10));
        assert(decimal(n as nat) == decimal((n / 10) as nat).push(digit_char((n % 10) as nat)));
        assert(final(s)@ =~= old(s)@ + decimal(n as nat));
    } else {
        s.append(digit_str(n));
        assert(final(s)@ =~= old(s)@ + decimal(n as nat));
    }
}

/// The default seat map of a vehicle: `total_seats` seats labelled "1",
/// "2", ... in order, all free; none where the count is not positive.
pub fn synthesize_seats(total_seats: i32) -> (r: Vec<Seat>)
    ensures
        seat_views(r@) == synthesized_seats(total_seats as int),
{
    let mut seats: Vec<Seat> = Vec::new();
    let mut i: i32 = 0;
    while i < total_seats
        invariant
            0 <= i,
            total_seats > 0 ==> i <= total_seats,
            total_seats <= 0 ==> i == 0,
            seat_views(seats@) =~= synthesized_seats(i as int),
        decreases total_seats - i,
    {
        let mut label = String::new();
        push_decimal(&mut label, (i + 1) as u32);
        let ghost before = seats@;
        seats.push(Seat { seat_number: label, is_available: true });
        assert(seat_views(seats@) =~= seat_views(before).push((decimal((i + 1) as nat), true)));
        i = i + 1;
    }
    seats
}

/// The seats that a stored seat array yields, in stored order: elements that
/// are not sub-documents are dropped, missing labels read as empty and
/// missing flags as taken.
pub fn seats_from_record(entries: &Vec<StoredSeat>) -> (r: Vec<Seat>)
    ensures
        seat_views(r@) == kept_seats(entries@),
{
    let mut seats: Vec<Seat> = Vec::new();
    let mut j: usize = 0;
    while j < entries.len()
        invariant
            j <= entries@.len(),
            seat_views(seats@) == kept_seats(entries@.subrange(0, j as int)),
        decreases entries@.len() - j,
    {
        let ghost before = seats@;
        let ghost prefix = entries@.subrange(0, j as int + 1);
        assert(prefix.drop_last() =~= entries@.subrange(0, j as int));
        assert(prefix.last() == entries@[j as int]);
        match &entries[j] {
            StoredSeat::Entry { seat_number, is_available } => {
                let label = match seat_number {
                    Some(s) => s.clone(),
                    None => String::new(),
                };
                let free = match is_available {
                    Some(b) => *b,
                    None => false,
                };
                seats.push(Seat { seat_number: label, is_available: free });
                assert(seat_views(seats@) =~= seat_views(before).push((label@, free)));
            },
            StoredSeat::NotADocument => {},
        }
        j = j + 1;
    }
    assert(entries@.subrange(0, entries@.len() as int) =~= entries@);
    seats
}

/// The next thing a resolution needs.
#[derive(Debug)]
pub enum Step {
    /// Look up the availability record of this vehicle for the date.
    FetchRecord(RecordId),
    /// Look up this vehicle's seat count.
    FetchVehicle(RecordId),
    /// The resolution is over.
    Finished(Result<Vec<Seat>, ResolveError>),
}

/// Starts a resolution. An identifier that is not 24 hexadecimal digits
/// finishes it at once, before any store is asked.
pub fn begin(vehicle_id: &str) -> (r: Step)
    ensures
        !is_object_id_text(vehicle_id@) <==> r == Step::Finished(Err(ResolveError::InvalidVehicleId)),
        is_object_id_text(vehicle_id@) ==> r is FetchRecord,
        r is FetchRecord ==> r->FetchRecord_0.bytes@ == object_id_bytes(vehicle_id@),
{
    match RecordId::parse(vehicle_id) {
        Some(id) => Step::FetchRecord(id),
        None => Step::Finished(Err(ResolveError::InvalidVehicleId)),
    }
}

/// Goes on from the record lookup. A failed lookup ends the resolution; a
/// record with a seat array ends it with the seats of that array; otherwise
/// the vehicle is to be looked up next.
pub fn after_record(id: RecordId, fetched: Result<Option<AvailabilityRecord>, StoreError>) -> (r:
    Step)
    ensures
        fetched is Err ==> r == Step::Finished(Err(ResolveError::StoreUnavailable)),
        fetched is Ok && has_seat_list(fetched->Ok_0) ==> r is Finished && outcome_view(
            r->Finished_0,
        ) == Ok::<Seq<SeatView>, ResolveError>(resolved_seats(fetched->Ok_0, None)),
        fetched is Ok && !has_seat_list(fetched->Ok_0) ==> r == Step::FetchVehicle(id),
{
    match fetched {
        Err(_) => Step::Finished(Err(ResolveError::StoreUnavailable)),
        Ok(Some(record)) => match &record.seats {
            Some(entries) => Step::Finished(Ok(seats_from_record(entries))),
            None => Step::FetchVehicle(id),
        },
        Ok(None) => Step::FetchVehicle(id),
    }
}

/// Ends the resolution from the vehicle lookup: a failed lookup is an error,
/// a vehicle gives its default seat map, and no vehicle gives no seats.
pub fn after_vehicle(fetched: Result<Option<i32>, StoreError>) -> (r: Result<Vec<Seat>, ResolveError>)
    ensures
        outcome_view(r) == match fetched {
            Err(_) => Err(ResolveError::StoreUnavailable),
            Ok(v) => Ok(resolved_seats(None, v)),
        },
{
    match fetched {
        Err(_) => Err(ResolveError::StoreUnavailable),
        Ok(Some(total_seats)) => Ok(synthesize_seats(total_seats)),
        Ok(None) => {
            let none: Vec<Seat> = Vec::new();
            assert(seat_views(none@) =~= Seq::<SeatView>::empty());
            Ok(none)
        },
    }
}

/// Resolves the seat map of the vehicle whose identifier text is
/// `vehicle_id`, given what the record lookup and the vehicle lookup return.
/// The vehicle lookup is only used where the record lookup gave no seat
/// array.
pub fn resolve(
    vehicle_id: &str,
    record: Result<Option<AvailabilityRecord>, StoreError>,
    vehicle: Result<Option<i32>, StoreError>,
) -> (r: Result<Vec<Seat>, ResolveError>)
    ensures
        outcome_view(r) == resolution(vehicle_id@, record, vehicle),
{
    match begin(vehicle_id) {
        Step::FetchRecord(id) => match after_record(id, record) {
            Step::Finished(done) => done,
            _ => after_vehicle(vehicle),
        },
        Step::FetchVehicle(_) => after_vehicle(vehicle),
        Step::Finished(done) => done,
    }
}

/// Whether a stored element is a sub-document with both fields present.
pub open spec fn is_complete_entry(e: StoredSeat) -> bool {
    match e {
        StoredSeat::Entry { seat_number, is_available } => seat_number is Some && is_available is Some,
        StoredSeat::NotADocument => false,
    }
}

/// The seat that a complete stored element holds.
pub open spec fn complete_entry_view(e: StoredSeat) -> SeatView {
    match e {
        StoredSeat::Entry { seat_number, is_available } => (
            seat_number->Some_0@,
            is_available->Some_0,
        ),
        StoredSeat::NotADocument => (Seq::empty(), false),
    }
}

proof fn lemma_kept_seats_complete(entries: Seq<StoredSeat>)
    requires
        forall|i: int| 0 <= i < entries.len() ==> is_complete_entry(#[trigger] entries[i]),
    ensures
        kept_seats(entries) == entries.map_values(|e: StoredSeat| complete_entry_view(e)),
    decreases entries.len(),
{
    if entries.len() > 0 {
        let rest = entries.drop_last();
        assert forall|i: int| 0 <= i < rest.len() implies is_complete_entry(#[trigger] rest[i]) by {
            assert(rest[i] == entries[i]);
        }
        lemma_kept_seats_complete(rest);
        assert(is_complete_entry(entries[entries.len() - 1]));
        assert(entries.map_values(|e: StoredSeat| complete_entry_view(e)) =~= rest.map_values(
            |e: StoredSeat| complete_entry_view(e),
        ).push(complete_entry_view(entries.last())));
    }
}

/// Where no seat array is stored for the date, a vehicle of `n` seats gets
/// exactly `n` seats, labelled "1" to `n` in order, all free.
pub proof fn lemma_default_map_without_record(
    id: Seq<char>,
    record: Option<AvailabilityRecord>,
    n: i32,
)
    requires
        is_object_id_text(id),
        !has_seat_list(record),
        n >= 0,
    ensures
        resolution(id, Ok(record), Ok(Some(n))) is Ok,
        resolution(id, Ok(record), Ok(Some(n)))->Ok_0.len() == n,
        forall|i: int|
            0 <= i < n ==> #[trigger] resolution(id, Ok(record), Ok(Some(n)))->Ok_0[i] == (
                decimal((i + 1) as nat),
                true,
            ),
{
}

/// A stored seat array whose elements are all complete seat documents is
/// returned as stored, element for element and in order, whatever the
/// vehicle lookup gives (its seat count included).
pub proof fn lemma_stored_map_verbatim(
    id: Seq<char>,
    record: AvailabilityRecord,
    vehicle: Result<Option<i32>, StoreError>,
)
    requires
        is_object_id_text(id),
        record.seats is Some,
        forall|i: int|
            0 <= i < record.seats->Some_0@.len() ==> is_complete_entry(
                #[trigger] record.seats->Some_0@[i],
            ),
    ensures
        resolution(id, Ok(Some(record)), vehicle) == Ok::<Seq<SeatView>, ResolveError>(
            record.seats->Some_0@.map_values(|e: StoredSeat| complete_entry_view(e)),
        ),
{
    lemma_kept_seats_complete(record.seats->Some_0@);
}

/// A vehicle that does not exist, with no seat array stored for the date,
/// resolves to no seats, not to an error.
pub proof fn lemma_unknown_vehicle_empty(id: Seq<char>, record: Option<AvailabilityRecord>)
    requires
        is_object_id_text(id),
        !has_seat_list(record),
    ensures
        resolution(id, Ok(record), Ok(None)) == Ok::<Seq<SeatView>, ResolveError>(Seq::empty()),
{
}

/// An identifier that is not 24 hexadecimal digits is rejected whatever the
/// stores hold or fail with.
pub proof fn lemma_invalid_id_rejected(
    id: Seq<char>,
    record: Result<Option<AvailabilityRecord>, StoreError>,
    vehicle: Result<Option<i32>, StoreError>,
)
    requires
        !is_object_id_text(id),
    ensures
        resolution(id, record, vehicle) == Err::<Seq<SeatView>, ResolveError>(
            ResolveError::InvalidVehicleId,
        ),
{
}

/// Two resolutions of the same vehicle and date, over the same store
/// contents, give the same outcome.
pub proof fn lemma_resolution_repeatable(
    first: Result<Vec<Seat>, ResolveError>,
    second: Result<Vec<Seat>, ResolveError>,
    id: Seq<char>,
    record: Result<Option<AvailabilityRecord>, StoreError>,
    vehicle: Result<Option<i32>, StoreError>,
)
    requires
        outcome_view(first) == resolution(id, record, vehicle),
        outcome_view(second) == resolution(id, record, vehicle),
    ensures
        outcome_view(first) == outcome_view(second),
{
}

} // verus!
