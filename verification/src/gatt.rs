//! The GATT listing of a connected peripheral and the lookup of the
//! characteristic that commands are written to.

use vstd::prelude::*;
use crate::address::Uuid;

verus! {

/// One service of a peripheral: its identifier and the identifiers of its
/// characteristics, in the order in which the peripheral lists them.
#[derive(Clone, Debug, PartialEq, Eq)]
pub struct GattService {
    pub uuid: Uuid,
    pub characteristics: Vec<Uuid>,
}

/// The mathematical value of a [`GattService`].
pub struct GattServiceView {
    pub uuid: Uuid,
    pub characteristics: Seq<Uuid>,
}

impl View for GattService {
    type V = GattServiceView;

    open spec fn view(&self) -> GattServiceView {
        GattServiceView { uuid: self.uuid, characteristics: self.characteristics@ }
    }
}

/// The mathematical value of a listing of services.
pub open spec fn listing_view(services: Seq<GattService>) -> Seq<GattServiceView> {
    services.map_values(|s: GattService| s@)
}

/// The place of a characteristic in the listing it was resolved from: the
/// index of its service, and its own index within that service.
#[derive(Clone, Copy, Debug, PartialEq, Eq, Structural)]
pub struct CharacteristicHandle {
    pub service: usize,
    pub characteristic: usize,
}

/// The listing is one that a peripheral can give: it and each of its
/// services are short enough to be held in memory.
pub open spec fn listing_fits(listing: Seq<GattServiceView>) -> bool {
    &&& listing.len() <= usize::MAX
    &&& forall|i: int|
        0 <= i < listing.len() ==> (#[trigger] listing[i]).characteristics.len() <= usize::MAX
}

/// Entry `j` of service `i` is the wanted characteristic of the wanted service.
pub open spec fn is_match(
    listing: Seq<GattServiceView>,
    service: Uuid,
    characteristic: Uuid,
    i: int,
    j: int,
) -> bool {
    &&& 0 <= i < listing.len()
    &&& listing[i].uuid == service
    &&& 0 <= j < listing[i].characteristics.len()
    &&& listing[i].characteristics[j] == characteristic
}

/// Entry `j` of service `i` matches, and nothing listed before it does.
pub open spec fn is_first_match(
    listing: Seq<GattServiceView>,
    service: Uuid,
    characteristic: Uuid,
    i: int,
    j: int,
) -> bool {
    &&& is_match(listing, service, characteristic, i, j)
    &&& forall|i2: int, j2: int|
        (i2 < i || (i2 == i && j2 < j)) ==> !is_match(listing, service, characteristic, i2, j2)
}

/// The listing names a service with this identifier.
pub open spec fn has_service(listing: Seq<GattServiceView>, service: Uuid) -> bool {
    exists|i: int| 0 <= i < listing.len() && (#[trigger] listing[i]).uuid == service
}

/// The handle of the first matching characteristic of the listing, if any matches.
pub open spec fn resolve(
    listing: Seq<GattServiceView>,
    service: Uuid,
    characteristic: Uuid,
) -> Option<CharacteristicHandle> {
    if exists|i: int, j: int| is_match(listing, service, characteristic, i, j) {
        let (i, j) = choose|i: int, j: int| is_first_match(listing, service, characteristic, i, j);
        Some(CharacteristicHandle { service: i as usize, characteristic: j as usize })
    } else {
        None
    }
}

/// Where anything matches, something matches first.
pub proof fn lemma_first_match_exists(
    listing: Seq<GattServiceView>,
    service: Uuid,
    characteristic: Uuid,
    i: int,
    j: int,
)
    requires
        is_match(listing, service, characteristic, i, j),
    ensures
        exists|a: int, b: int| is_first_match(listing, service, characteristic, a, b),
    decreases i, j,
{
    if exists|i2: int, j2: int|
        (i2 < i || (i2 == i && j2 < j)) && is_match(listing, service, characteristic, i2, j2) {
        let (i2, j2) = choose|i2: int, j2: int|
            (i2 < i || (i2 == i && j2 < j)) && is_match(listing, service, characteristic, i2, j2);
        lemma_first_match_exists(listing, service, characteristic, i2, j2);
    } else {
        assert(is_first_match(listing, service, characteristic, i, j));
    }
}

/// A listing has at most one first match, and `resolve` names it.
pub proof fn lemma_resolve_first_match(
    listing: Seq<GattServiceView>,
    service: Uuid,
    characteristic: Uuid,
    i: int,
    j: int,
)
    requires
        is_first_match(listing, service, characteristic, i, j),
        i <= usize::MAX,
        j <= usize::MAX,
    ensures
        resolve(listing, service, characteristic) == Some(
            CharacteristicHandle { service: i as usize, characteristic: j as usize },
        ),
{
    assert(is_match(listing, service, characteristic, i, j));
    let (a, b) = choose|a: int, b: int| is_first_match(listing, service, characteristic, a, b);
    assert(is_first_match(listing, service, characteristic, a, b));
    assert(is_match(listing, service, characteristic, a, b));
    assert(!(a < i || (a == i && b < j)));
    assert(!(i < a || (i == a && j < b)));
}

/// Looks a characteristic up in the listing of a peripheral.
///
/// The services are walked in order; within each service whose identifier is
/// `service_uuid` the characteristics are walked in order, and the first one
/// whose identifier is `characteristic_uuid` is the result.
pub fn find_characteristic(
    services: &Vec<GattService>,
    service_uuid: Uuid,
    characteristic_uuid: Uuid,
) -> (found: Option<CharacteristicHandle>)
    ensures
        found == resolve(listing_view(services@), service_uuid, characteristic_uuid),
        match found {
            Some(handle) => is_first_match(
                listing_view(services@),
                service_uuid,
                characteristic_uuid,
                handle.service as int,
                handle.characteristic as int,
            ),
            None => forall|i: int, j: int|
                !is_match(listing_view(services@), service_uuid, characteristic_uuid, i, j),
        },
{
    let ghost listing = listing_view(services@);
    let mut i: usize = 0;
    while i < services.len()
        invariant
            i <= services.len(),
            listing == listing_view(services@),
            forall|i2: int, j2: int|
                i2 < i ==> !is_match(listing, service_uuid, characteristic_uuid, i2, j2),
        decreases services.len() - i,
    {
        let service = &services[i];
        assert(listing[i as int] == service@);
        if service.uuid == service_uuid {
            let mut j: usize = 0;
            while j < service.characteristics.len()
                invariant
                    j <= service.characteristics.len(),
                    i < services.len(),
                    listing == listing_view(services@),
                    listing[i as int] == service@,
                    service.uuid == service_uuid,
                    forall|i2: int, j2: int|
                        i2 < i ==> !is_match(listing, service_uuid, characteristic_uuid, i2, j2),
                    forall|j2: int|
                        j2 < j ==> !is_match(
                            listing,
                            service_uuid,
                            characteristic_uuid,
                            i as int,
                            j2,
                        ),
                decreases service.characteristics.len() - j,
            {
                if service.characteristics[j] == characteristic_uuid {
                    proof {
                        lemma_resolve_first_match(
                            listing,
                            service_uuid,
                            characteristic_uuid,
                            i as int,
                            j as int,
                        );
                    }
                    return Some(CharacteristicHandle { service: i, characteristic: j });
                }
                j += 1;
            }
        }
        i += 1;
    }
    None
}

/// Whether the listing names a service with this identifier.
pub fn lists_service(services: &Vec<GattService>, service_uuid: Uuid) -> (listed: bool)
    ensures
        listed == has_service(listing_view(services@), service_uuid),
{
    let ghost listing = listing_view(services@);
    let mut i: usize = 0;
    while i < services.len()
        invariant
            i <= services.len(),
            listing == listing_view(services@),
            forall|k: int| 0 <= k < i ==> (#[trigger] listing[k]).uuid != service_uuid,
        decreases services.len() - i,
    {
        assert(listing[i as int] == services@[i as int]@);
        if services[i].uuid == service_uuid {
            return true;
        }
        i += 1;
    }
    false
}

} // verus!
