//! Devices: how one is addressed, and which one a command without a target
//! goes to.

use vstd::prelude::*;

verus! {

/// How to reach a device over HID++.
#[derive(Debug)]
pub enum DeviceRoute {
    /// Through a Logi Bolt receiver.
    Bolt {
        /// The unique id of the receiver.
        receiver_uid: String,
        /// The slot that the device is paired to.
        slot: u8,
    },
    /// Directly, over Bluetooth or a cable.
    Direct {
        /// The USB vendor id.
        vendor_id: u16,
        /// The USB product id.
        product_id: u16,
    },
}

/// The view of a [`DeviceRoute`].
pub enum RouteView {
    /// Through a receiver: its id and the slot.
    Bolt(Seq<char>, u8),
    /// Directly: vendor and product.
    Direct(u16, u16),
}

impl View for DeviceRoute {
    type V = RouteView;

    open spec fn view(&self) -> RouteView {
        match self {
            DeviceRoute::Bolt { receiver_uid, slot } => RouteView::Bolt(receiver_uid@, *slot),
            DeviceRoute::Direct { vendor_id, product_id } => RouteView::Direct(
                *vendor_id,
                *product_id,
            ),
        }
    }
}

impl Clone for DeviceRoute {
    fn clone(&self) -> (r: Self)
        ensures
            r@ == self@,
    {
        match self {
            DeviceRoute::Bolt { receiver_uid, slot } => DeviceRoute::Bolt {
                receiver_uid: receiver_uid.clone(),
                slot: *slot,
            },
            DeviceRoute::Direct { vendor_id, product_id } => DeviceRoute::Direct {
                vendor_id: *vendor_id,
                product_id: *product_id,
            },
        }
    }
}

/// The view of an optional route.
pub open spec fn route_view(route: Option<DeviceRoute>) -> Option<RouteView> {
    match route {
        Some(r) => Some(r@),
        None => None,
    }
}

/// Decides whether two routes lead to the same device.
pub fn same_route(a: &DeviceRoute, b: &DeviceRoute) -> (r: bool)
    ensures
        r == (a@ == b@),
{
    match (a, b) {
        (
            DeviceRoute::Bolt { receiver_uid: u, slot: s },
            DeviceRoute::Bolt { receiver_uid: v, slot: t },
        ) => *u == *v && *s == *t,
        (
            DeviceRoute::Direct { vendor_id: v, product_id: p },
            DeviceRoute::Direct { vendor_id: w, product_id: q },
        ) => *v == *w && *p == *q,
        _ => false,
    }
}

/// A device that is paired to a receiver.
#[derive(Clone, Copy, Debug, PartialEq, Eq, Structural)]
pub struct PairedDevice {
    /// Its slot.
    pub slot: u8,
    /// Whether it is reachable right now.
    pub online: bool,
}

/// A receiver (or the stand-in for one, for a direct connection).
#[derive(Debug)]
pub struct Receiver {
    /// Its unique id; a direct connection has none.
    pub unique_id: Option<String>,
    /// The USB vendor id.
    pub vendor_id: u16,
    /// The USB product id.
    pub product_id: u16,
}

/// One receiver with its paired devices.
#[derive(Debug)]
pub struct Inventory {
    /// The receiver.
    pub receiver: Receiver,
    /// The devices that are paired to it.
    pub paired: Vec<PairedDevice>,
}

/// The view of an [`Inventory`].
pub struct InventoryView {
    /// The unique id of the receiver.
    pub unique_id: Option<Seq<char>>,
    /// The USB vendor id.
    pub vendor_id: u16,
    /// The USB product id.
    pub product_id: u16,
    /// The devices that are paired to it.
    pub paired: Seq<PairedDevice>,
}

impl View for Inventory {
    type V = InventoryView;

    open spec fn view(&self) -> InventoryView {
        InventoryView {
            unique_id: match self.receiver.unique_id {
                Some(uid) => Some(uid@),
                None => None,
            },
            vendor_id: self.receiver.vendor_id,
            product_id: self.receiver.product_id,
            paired: self.paired@,
        }
    }
}

/// The first device among `paired` that is online.
pub open spec fn first_online(paired: Seq<PairedDevice>) -> Option<PairedDevice>
    decreases paired.len(),
{
    if paired.len() == 0 {
        None
    } else if paired[0].online {
        Some(paired[0])
    } else {
        first_online(paired.drop_first())
    }
}

/// The route to `device` of the receiver that `inventory` describes.
pub open spec fn route_to(inventory: InventoryView, device: PairedDevice) -> RouteView {
    match inventory.unique_id {
        Some(uid) => RouteView::Bolt(uid, device.slot),
        None => RouteView::Direct(inventory.vendor_id, inventory.product_id),
    }
}

/// The route to the first online device of the first receiver that has one.
pub open spec fn first_route(inventories: Seq<InventoryView>) -> Option<RouteView>
    decreases inventories.len(),
{
    if inventories.len() == 0 {
        None
    } else {
        match first_online(inventories[0].paired) {
            Some(device) => Some(route_to(inventories[0], device)),
            None => first_route(inventories.drop_first()),
        }
    }
}

/// Finds the first device that is online.
fn find_online(paired: &Vec<PairedDevice>) -> (r: Option<PairedDevice>)
    ensures
        r == first_online(paired@),
{
    assert(paired@.skip(0) =~= paired@);
    for i in 0..paired.len()
        invariant
            first_online(paired@) == first_online(paired@.skip(i as int)),
    {
        let device = paired[i];
        let ghost rest = paired@.skip(i as int);
        assert(rest[0] == device);
        assert(rest.drop_first() =~= paired@.skip(i + 1));
        if device.online {
            return Some(device);
        }
    }
    assert(paired@.skip(paired.len() as int).len() == 0);
    None
}

/// Builds the route to the first online paired device.
pub fn first_online_device(inventories: &Vec<Inventory>) -> (r: Result<DeviceRoute, String>)
    ensures
        match r {
            Ok(route) => first_route(inventories@.map_values(|i: Inventory| i@)) == Some(route@),
            Err(e) => {
                &&& first_route(inventories@.map_values(|i: Inventory| i@)) is None
                &&& e@ == "no online HID++ device found — is a Logi mouse paired?"@
            },
        },
{
    let ghost views = inventories@.map_values(|i: Inventory| i@);
    assert(views.skip(0) =~= views);
    for i in 0..inventories.len()
        invariant
            views == inventories@.map_values(|i: Inventory| i@),
            first_route(views) == first_route(views.skip(i as int)),
    {
        let inventory = &inventories[i];
        let ghost rest = views.skip(i as int);
        assert(rest[0] == inventory@);
        assert(rest.drop_first() =~= views.skip(i + 1));
        if let Some(device) = find_online(&inventory.paired) {
            return Ok(
                match &inventory.receiver.unique_id {
                    Some(uid) => DeviceRoute::Bolt { receiver_uid: uid.clone(), slot: device.slot },
                    None => DeviceRoute::Direct {
                        vendor_id: inventory.receiver.vendor_id,
                        product_id: inventory.receiver.product_id,
                    },
                },
            );
        }
    }
    assert(views.skip(inventories.len() as int).len() == 0);
    Err("no online HID++ device found — is a Logi mouse paired?".to_owned())
}

/// A route is found exactly when some paired device is online.
pub proof fn law_route_iff_some_device_is_online(inventories: Seq<InventoryView>)
    ensures
        first_route(inventories) is Some <==> exists|i: int, j: int|
            0 <= i < inventories.len() && 0 <= j < inventories[i].paired.len()
                && (#[trigger] inventories[i].paired[j]).online,
    decreases inventories.len(),
{
    if inventories.len() > 0 {
        let rest = inventories.drop_first();
        law_route_iff_some_device_is_online(rest);
        lemma_online_iff(inventories[0].paired);
        if first_online(inventories[0].paired) is None {
            if first_route(rest) is Some {
                let (i, j) = choose|i: int, j: int|
                    0 <= i < rest.len() && 0 <= j < rest[i].paired.len() && (
                    #[trigger] rest[i].paired[j]).online;
                assert(inventories[i + 1].paired[j].online);
            }
            if exists|i: int, j: int|
                0 <= i < inventories.len() && 0 <= j < inventories[i].paired.len() && (
                #[trigger] inventories[i].paired[j]).online {
                let (i, j) = choose|i: int, j: int|
                    0 <= i < inventories.len() && 0 <= j < inventories[i].paired.len() && (
                    #[trigger] inventories[i].paired[j]).online;
                assert(i > 0);
                assert(rest[i - 1].paired[j].online);
            }
        } else {
            let j = choose|j: int|
                0 <= j < inventories[0].paired.len() && (
                #[trigger] inventories[0].paired[j]).online;
            assert(inventories[0].paired[j].online);
        }
    }
}

/// A device is found exactly when one is online.
proof fn lemma_online_iff(paired: Seq<PairedDevice>)
    ensures
        first_online(paired) is Some <==> exists|j: int|
            0 <= j < paired.len() && (#[trigger] paired[j]).online,
    decreases paired.len(),
{
    if paired.len() > 0 {
        let rest = paired.drop_first();
        lemma_online_iff(rest);
        if !paired[0].online {
            if first_online(rest) is Some {
                let j = choose|j: int| 0 <= j < rest.len() && (#[trigger] rest[j]).online;
                assert(paired[j + 1].online);
            }
            if exists|j: int| 0 <= j < paired.len() && (#[trigger] paired[j]).online {
                let j = choose|j: int| 0 <= j < paired.len() && (#[trigger] paired[j]).online;
                assert(rest[j - 1].online);
            }
        }
    }
}

/// Two routes are the same exactly when every part of them is.
pub proof fn law_routes_differ_in_some_part(a: DeviceRoute, b: DeviceRoute)
    ensures
        a@ == b@ <==> match (a, b) {
            (
                DeviceRoute::Bolt { receiver_uid: u, slot: s },
                DeviceRoute::Bolt { receiver_uid: v, slot: t },
            ) => u@ == v@ && s == t,
            (
                DeviceRoute::Direct { vendor_id: v, product_id: p },
                DeviceRoute::Direct { vendor_id: w, product_id: q },
            ) => v == w && p == q,
            _ => false,
        },
{
}

/// The first online device is the one that is addressed: if nothing in front of
/// the device at `(i, j)` is online, and it is, then the route leads to its slot
/// on its receiver, or straight to it where the receiver has no id.
pub proof fn law_first_online_device_is_addressed(inventories: Seq<InventoryView>, i: int, j: int)
    requires
        0 <= i < inventories.len(),
        0 <= j < inventories[i].paired.len(),
        inventories[i].paired[j].online,
        forall|k: int| 0 <= k < j ==> !(#[trigger] inventories[i].paired[k]).online,
        forall|h: int, k: int|
            0 <= h < i && 0 <= k < inventories[h].paired.len() ==> !(
            #[trigger] inventories[h].paired[k]).online,
    ensures
        inventories[i].unique_id matches Some(uid) ==> first_route(inventories) == Some(
            RouteView::Bolt(uid, inventories[i].paired[j].slot),
        ),
        inventories[i].unique_id is None ==> first_route(inventories) == Some(
            RouteView::Direct(inventories[i].vendor_id, inventories[i].product_id),
        ),
    decreases i,
{
    if i == 0 {
        lemma_first_online_at(inventories[0].paired, j);
    } else {
        let rest = inventories.drop_first();
        lemma_online_iff(inventories[0].paired);
        assert(first_online(inventories[0].paired) is None) by {
            if exists|k: int|
                0 <= k < inventories[0].paired.len() && (
                #[trigger] inventories[0].paired[k]).online {
                let k = choose|k: int|
                    0 <= k < inventories[0].paired.len() && (
                    #[trigger] inventories[0].paired[k]).online;
                assert(!inventories[0].paired[k].online);
            }
        }
        assert(rest[i - 1] == inventories[i]);
        assert forall|k: int| 0 <= k < j implies !(#[trigger] rest[i - 1].paired[k]).online by {
            assert(!inventories[i].paired[k].online);
        }
        assert forall|h: int, k: int|
            0 <= h < i - 1 && 0 <= k < rest[h].paired.len() implies !(
        #[trigger] rest[h].paired[k]).online by {
            assert(rest[h] == inventories[h + 1]);
            assert(!inventories[h + 1].paired[k].online);
        }
        law_first_online_device_is_addressed(rest, i - 1, j);
    }
}

/// The first device that is online is found.
proof fn lemma_first_online_at(paired: Seq<PairedDevice>, j: int)
    requires
        0 <= j < paired.len(),
        paired[j].online,
        forall|k: int| 0 <= k < j ==> !(#[trigger] paired[k]).online,
    ensures
        first_online(paired) == Some(paired[j]),
    decreases j,
{
    if j > 0 {
        assert(!paired[0].online);
        let rest = paired.drop_first();
        assert forall|k: int| 0 <= k < j - 1 implies !(#[trigger] rest[k]).online by {
            assert(rest[k] == paired[k + 1]);
        }
        lemma_first_online_at(rest, j - 1);
    }
}

/// Inventories and optional routes are seen as they are.
pub proof fn law_inventories_are_seen_as_they_are(inventory: Inventory, route: DeviceRoute)
    ensures
        inventory@.vendor_id == inventory.receiver.vendor_id,
        inventory@.product_id == inventory.receiver.product_id,
        inventory@.paired == inventory.paired@,
        inventory.receiver.unique_id is None ==> inventory@.unique_id is None,
        inventory.receiver.unique_id matches Some(uid) ==> inventory@.unique_id == Some(uid@),
        route_view(Some(route)) == Some(route@),
        route_view(None) is None,
{
}

} // verus!
