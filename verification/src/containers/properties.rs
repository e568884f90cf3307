//! The properties by which the device tells which resources it holds.

use crate::ident::{hyphenated, Uuid};
use vstd::prelude::*;
use vstd::string::StringExecFns;

verus! {

/// The interface of the images that the device holds.
pub open spec fn image_interface() -> Seq<char> {
    "io.edgehog.devicemanager.apps.AvailableImages"@
}

/// The endpoint of a field of a resource: `/`, the identifier of the
/// resource, `/`, the name of the field.
pub open spec fn endpoint_of(id: u128, field: Seq<char>) -> Seq<char> {
    "/"@ + hyphenated(id) + "/"@ + field
}

/// The interface of the containers that the device holds.
pub open spec fn container_interface() -> Seq<char> {
    "io.edgehog.devicemanager.apps.AvailableContainers"@
}

/// The value of a property.
#[derive(Debug, Clone, PartialEq, Eq)]
pub enum PropertyValue {
    Flag(bool),
    Text(String),
}

/// What a [`PropertyValue`] holds.
pub enum PropertyValueView {
    Flag(bool),
    Text(Seq<char>),
}

impl View for PropertyValue {
    type V = PropertyValueView;

    open spec fn view(&self) -> PropertyValueView {
        match *self {
            PropertyValue::Flag(flag) => PropertyValueView::Flag(flag),
            PropertyValue::Text(text) => PropertyValueView::Text(text@),
        }
    }
}

/// What is sent upstream: a value for an endpoint of an interface, or the
/// unsetting of the endpoint.
#[derive(Debug, Clone, PartialEq, Eq)]
pub struct Publication {
    pub interface: String,
    pub endpoint: String,
    /// The value to set; `None` unsets the endpoint.
    pub value: Option<PropertyValue>,
}

/// What a [`Publication`] holds.
pub struct PublicationView {
    pub interface: Seq<char>,
    pub endpoint: Seq<char>,
    pub value: Option<PropertyValueView>,
}

impl View for Publication {
    type V = PublicationView;

    open spec fn view(&self) -> PublicationView {
        PublicationView {
            interface: self.interface@,
            endpoint: self.endpoint@,
            value: match self.value {
                Some(value) => Some(value@),
                None => None,
            },
        }
    }
}

/// What goes upstream for the property `pulled` of an image.
pub open spec fn image_publication(id: u128, value: Option<bool>) -> PublicationView {
    PublicationView {
        interface: image_interface(),
        endpoint: endpoint_of(id, "pulled"@),
        value: match value {
            Some(flag) => Some(PropertyValueView::Flag(flag)),
            None => None,
        },
    }
}

/// What goes upstream for the property `status` of a container.
pub open spec fn container_publication(id: u128, value: Option<Seq<char>>) -> PublicationView {
    PublicationView {
        interface: container_interface(),
        endpoint: endpoint_of(id, "status"@),
        value: match value {
            Some(text) => Some(PropertyValueView::Text(text)),
            None => None,
        },
    }
}

/// The endpoint of a field of a resource.
pub fn endpoint(id: &Uuid, field: &str) -> (r: String)
    ensures
        r@ == endpoint_of(id.0, field@),
{
    let id = id.to_string();
    String::from_str("/").concat(id.as_str()).concat("/").concat(field)
}

/// The property that tells whether an image is held.
#[derive(Debug, Clone, Copy, PartialEq, Eq)]
pub struct AvailableImage {
    pub id: Uuid,
}

impl AvailableImage {
    /// The property of the image with the identifier.
    pub fn new(id: &Uuid) -> (r: Self)
        ensures
            r.id == *id,
    {
        Self { id: *id }
    }

    /// The interface of the property.
    pub fn interface() -> (r: &'static str)
        ensures
            r@ == image_interface(),
    {
        "io.edgehog.devicemanager.apps.AvailableImages"
    }

    /// The field of the property.
    pub fn field() -> (r: &'static str)
        ensures
            r@ == "pulled"@,
    {
        "pulled"
    }

    /// The identifier of the image.
    pub fn id(&self) -> (r: &Uuid)
        ensures
            *r == self.id,
    {
        &self.id
    }

    /// What is sent to tell whether the image has been pulled.
    pub fn send(&self, data: bool) -> (r: Publication)
        ensures
            r@ == image_publication(self.id.0, Some(data)),
    {
        self.send_field(Self::field(), data)
    }

    /// What is sent to set a field of the image.
    pub fn send_field(&self, field: &str, data: bool) -> (r: Publication)
        ensures
            r@ == (PublicationView {
                interface: image_interface(),
                endpoint: endpoint_of(self.id.0, field@),
                value: Some(PropertyValueView::Flag(data)),
            }),
    {
        Publication {
            interface: String::from_str(Self::interface()),
            endpoint: endpoint(&self.id, field),
            value: Some(PropertyValue::Flag(data)),
        }
    }

    /// What is sent to take the property of the image away.
    pub fn unset(&self) -> (r: Publication)
        ensures
            r@ == image_publication(self.id.0, None),
    {
        Publication {
            interface: String::from_str(Self::interface()),
            endpoint: endpoint(&self.id, Self::field()),
            value: None,
        }
    }
}

/// The property that tells the status of a container.
#[derive(Debug, Clone, Copy, PartialEq, Eq)]
pub struct AvailableContainer {
    pub id: Uuid,
}

impl AvailableContainer {
    /// The property of the container with the identifier.
    pub fn new(id: &Uuid) -> (r: Self)
        ensures
            r.id == *id,
    {
        Self { id: *id }
    }

    /// The interface of the property.
    pub fn interface() -> (r: &'static str)
        ensures
            r@ == container_interface(),
    {
        "io.edgehog.devicemanager.apps.AvailableContainers"
    }

    /// The field of the property.
    pub fn field() -> (r: &'static str)
        ensures
            r@ == "status"@,
    {
        "status"
    }

    /// The identifier of the container.
    pub fn id(&self) -> (r: &Uuid)
        ensures
            *r == self.id,
    {
        &self.id
    }

    /// What is sent to tell the status of the container.
    pub fn send(&self, data: String) -> (r: Publication)
        ensures
            r@ == container_publication(self.id.0, Some(data@)),
    {
        Publication {
            interface: String::from_str(Self::interface()),
            endpoint: endpoint(&self.id, Self::field()),
            value: Some(PropertyValue::Text(data)),
        }
    }

    /// What is sent to take the property of the container away.
    pub fn unset(&self) -> (r: Publication)
        ensures
            r@ == container_publication(self.id.0, None),
    {
        Publication {
            interface: String::from_str(Self::interface()),
            endpoint: endpoint(&self.id, Self::field()),
            value: None,
        }
    }
}

} // verus!
