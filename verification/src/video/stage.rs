//! Stage descriptors: what the engine needs to know to create one processing
//! stage.

use vstd::prelude::*;

verus! {

/// The native stage types a pipeline is made of.
#[derive(Copy, Clone, Debug, PartialEq, Eq, Structural)]
pub enum StageKind {
    /// Reads a file from disk.
    FileSource,
    /// Reads frames from the live capture device.
    CaptureSource,
    /// Splits a container into its elementary streams.
    Demuxer,
    /// Decodes H.264 video.
    Decoder,
    /// Converts between pixel layouts.
    Convert,
    /// Maps colors through a lookup table.
    ColorFilter,
    /// Resizes frames.
    Scaler,
    /// Constrains the format of the frames that pass.
    Constraint,
    /// Rotates or flips frames.
    OrientationFilter,
    /// Encodes video as H.264.
    Encoder,
    /// Buffers frames between two stages.
    Queue,
    /// Shows frames on the local display.
    Renderer,
}

impl StageKind {
    /// The name under which the engine knows this stage type.
    pub open spec fn factory_name(self) -> Seq<char> {
        match self {
            StageKind::FileSource => "filesrc"@,
            StageKind::CaptureSource => "v4l2src"@,
            StageKind::Demuxer => "qtdemux"@,
            StageKind::Decoder => "avdec_h264"@,
            StageKind::Convert => "videoconvert"@,
            StageKind::ColorFilter => "coloreffects"@,
            StageKind::Scaler => "videoscale"@,
            StageKind::Constraint => "capsfilter"@,
            StageKind::OrientationFilter => "videoflip"@,
            StageKind::Encoder => "x264enc"@,
            StageKind::Queue => "queue"@,
            StageKind::Renderer => "xvimagesink"@,
        }
    }

    /// The name under which the engine knows this stage type.
    pub fn factory(&self) -> (name: &'static str)
        ensures
            name@ == self.factory_name(),
    {
        match self {
            StageKind::FileSource => "filesrc",
            StageKind::CaptureSource => "v4l2src",
            StageKind::Demuxer => "qtdemux",
            StageKind::Decoder => "avdec_h264",
            StageKind::Convert => "videoconvert",
            StageKind::ColorFilter => "coloreffects",
            StageKind::Scaler => "videoscale",
            StageKind::Constraint => "capsfilter",
            StageKind::OrientationFilter => "videoflip",
            StageKind::Encoder => "x264enc",
            StageKind::Queue => "queue",
            StageKind::Renderer => "xvimagesink",
        }
    }
}

/// The value of one stage property.
#[derive(Debug, PartialEq, Eq)]
pub enum PropertyValue {
    /// A value the engine parses from text.
    Text(String),
    /// A format constraint: a media type with a fixed frame size.
    Caps { media: String, width: i32, height: i32 },
}

/// Mathematical value of a [`PropertyValue`].
pub enum ValueModel {
    Text(Seq<char>),
    Caps { media: Seq<char>, width: i32, height: i32 },
}

impl View for PropertyValue {
    type V = ValueModel;

    open spec fn view(&self) -> ValueModel {
        match self {
            PropertyValue::Text(text) => ValueModel::Text(text@),
            PropertyValue::Caps { media, width, height } => ValueModel::Caps {
                media: media@,
                width: *width,
                height: *height,
            },
        }
    }
}

impl Clone for PropertyValue {
    fn clone(&self) -> (copy: Self)
        ensures
            copy@ == self@,
    {
        match self {
            PropertyValue::Text(text) => PropertyValue::Text(text.clone()),
            PropertyValue::Caps { media, width, height } => PropertyValue::Caps {
                media: media.clone(),
                width: *width,
                height: *height,
            },
        }
    }
}

/// One property of a stage: its name and the value it is set to.
#[derive(Debug, PartialEq, Eq)]
pub struct StageProperty {
    pub key: String,
    pub value: PropertyValue,
}

/// Mathematical value of a [`StageProperty`].
pub struct PropertyModel {
    pub key: Seq<char>,
    pub value: ValueModel,
}

impl View for StageProperty {
    type V = PropertyModel;

    open spec fn view(&self) -> PropertyModel {
        PropertyModel { key: self.key@, value: self.value@ }
    }
}

impl Clone for StageProperty {
    fn clone(&self) -> (copy: Self)
        ensures
            copy@ == self@,
    {
        StageProperty { key: self.key.clone(), value: self.value.clone() }
    }
}

/// The values of a list of properties, in order.
pub open spec fn property_models(properties: Seq<StageProperty>) -> Seq<PropertyModel> {
    properties.map_values(|p: StageProperty| p@)
}

/// One node to be created in the engine.
#[derive(Debug, PartialEq, Eq)]
pub struct StageDescriptor {
    /// The native stage type.
    pub kind: StageKind,
    /// The name of the stage within the graph; absent when the engine is
    /// left to assign one.
    pub name: Option<String>,
    /// The properties to set on the stage, in order.
    pub properties: Vec<StageProperty>,
}

/// Mathematical value of a [`StageDescriptor`].
pub struct StageModel {
    pub kind: StageKind,
    pub name: Option<Seq<char>>,
    pub properties: Seq<PropertyModel>,
}

impl StageModel {
    /// A stage of the given kind with no name and no properties.
    pub open spec fn make(kind: StageKind) -> StageModel {
        StageModel { kind, name: None, properties: Seq::empty() }
    }

    /// The same stage under the given name.
    pub open spec fn name(self, name: Seq<char>) -> StageModel {
        StageModel { name: Some(name), ..self }
    }

    /// The same stage with one more property, set after the others.
    pub open spec fn property(self, key: Seq<char>, value: ValueModel) -> StageModel {
        StageModel { properties: self.properties.push(PropertyModel { key, value }), ..self }
    }

    /// The same stage with one more property, given as text.
    pub open spec fn property_from_str(self, key: Seq<char>, value: Seq<char>) -> StageModel {
        self.property(key, ValueModel::Text(value))
    }

    /// Whether this is the stage whose outputs appear only once the
    /// container has been inspected: the one named `demux`.
    pub open spec fn is_demux(self) -> bool {
        self.name == Some("demux"@)
    }
}

impl View for StageDescriptor {
    type V = StageModel;

    open spec fn view(&self) -> StageModel {
        StageModel {
            kind: self.kind,
            name: match self.name {
                Some(name) => Some(name@),
                None => None,
            },
            properties: property_models(self.properties@),
        }
    }
}

impl StageDescriptor {
    /// Describes a stage of the given kind, with no name and no properties.
    pub fn make(kind: StageKind) -> (stage: Self)
        ensures
            stage@ == StageModel::make(kind),
    {
        let stage = StageDescriptor { kind, name: None, properties: Vec::new() };
        assert(stage@.properties =~= Seq::empty());
        stage
    }

    /// Gives the stage a name.
    pub fn name(self, name: &str) -> (stage: Self)
        ensures
            stage@ == self@.name(name@),
    {
        StageDescriptor { kind: self.kind, name: Some(name.to_owned()), properties: self.properties }
    }

    /// Adds a property to the stage.
    pub fn property(self, key: &str, value: PropertyValue) -> (stage: Self)
        ensures
            stage@ == self@.property(key@, value@),
    {
        let mut properties = self.properties;
        let property = StageProperty { key: key.to_owned(), value };
        properties.push(property);
        let stage = StageDescriptor { kind: self.kind, name: self.name, properties };
        assert(stage@.properties =~= self@.properties.push(property@));
        stage
    }

    /// Adds a property to the stage, its value given as text.
    pub fn property_from_str(self, key: &str, value: &str) -> (stage: Self)
        ensures
            stage@ == self@.property_from_str(key@, value@),
    {
        self.property(key, PropertyValue::Text(value.to_owned()))
    }

    /// Whether this is the demultiplexer, which is recognised by its name.
    pub fn is_demux(&self) -> (b: bool)
        ensures
            b == self@.is_demux(),
    {
        match &self.name {
            Some(name) => {
                let demux = "demux".to_owned();
                *name == demux
            },
            None => false,
        }
    }
}

impl Clone for StageDescriptor {
    fn clone(&self) -> (copy: Self)
        ensures
            copy@ == self@,
    {
        let mut properties: Vec<StageProperty> = Vec::new();
        let mut i: usize = 0;
        while i < self.properties.len()
            invariant
                i <= self.properties.len(),
                properties.len() == i,
                forall|j: int| 0 <= j < i ==> properties[j]@ == self.properties[j]@,
            decreases self.properties.len() - i,
        {
            properties.push(self.properties[i].clone());
            i += 1;
        }
        let name = match &self.name {
            Some(name) => Some(name.clone()),
            None => None,
        };
        let copy = StageDescriptor { kind: self.kind, name, properties };
        assert(copy@.properties =~= self@.properties);
        copy
    }
}

/// The values of a list of stages, in order.
pub open spec fn stage_models(stages: Seq<StageDescriptor>) -> Seq<StageModel> {
    stages.map_values(|d: StageDescriptor| d@)
}

/// Copies a list of stages.
pub fn clone_stages(stages: &Vec<StageDescriptor>) -> (copy: Vec<StageDescriptor>)
    ensures
        stage_models(copy@) == stage_models(stages@),
{
    let mut copy: Vec<StageDescriptor> = Vec::new();
    let mut i: usize = 0;
    while i < stages.len()
        invariant
            i <= stages.len(),
            copy.len() == i,
            forall|j: int| 0 <= j < i ==> copy[j]@ == stages[j]@,
        decreases stages.len() - i,
    {
        copy.push(stages[i].clone());
        i += 1;
    }
    assert(stage_models(copy@) =~= stage_models(stages@));
    copy
}

} // verus!
