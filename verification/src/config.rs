//! Process configuration: the upstream's base address and what the
//! dashboard needs to lay itself out. Loading and layering the sources is
//! the surrounding program's concern; the library holds the settled values.

use vstd::prelude::*;

use crate::nodes::strings_v;

verus! {

/// The whole configuration.
#[derive(Debug, Clone, PartialEq)]
pub struct Config {
    pub port: u16,
    pub elastic: ElasticConfig,
    pub ui: UiConfig,
}

/// Where the upstream cluster is reached.
#[derive(Debug, Clone, PartialEq)]
pub struct ElasticConfig {
    pub url: String,
}

/// Dashboard settings.
#[derive(Debug, Clone, PartialEq)]
pub struct UiConfig {
    pub colorscheme: String,
    pub flow: FlowConfig,
}

/// Settings of the dashboard's flow diagram.
#[derive(Debug, Clone, PartialEq)]
pub struct FlowConfig {
    pub node: NodeConfig,
    pub edge: EdgeConfig,
}

/// Which attributes the diagram's edges display.
#[derive(Debug, Clone, PartialEq)]
pub struct EdgeConfig {
    pub attributes: Vec<String>,
}

/// Which attributes the diagram's nodes display, and which one colors them.
#[derive(Debug, Clone, PartialEq)]
pub struct NodeConfig {
    pub attributes: Vec<String>,
    pub color_attribute: String,
}

pub struct ConfigV {
    pub port: int,
    pub elastic: ElasticConfigV,
    pub ui: UiConfigV,
}

pub struct ElasticConfigV {
    pub url: Seq<char>,
}

pub struct UiConfigV {
    pub colorscheme: Seq<char>,
    pub flow: FlowConfigV,
}

pub struct FlowConfigV {
    pub node: NodeConfigV,
    pub edge: EdgeConfigV,
}

pub struct EdgeConfigV {
    pub attributes: Seq<Seq<char>>,
}

pub struct NodeConfigV {
    pub attributes: Seq<Seq<char>>,
    pub color_attribute: Seq<char>,
}

impl View for ElasticConfig {
    type V = ElasticConfigV;

    open spec fn view(&self) -> ElasticConfigV {
        ElasticConfigV { url: self.url@ }
    }
}

impl View for EdgeConfig {
    type V = EdgeConfigV;

    open spec fn view(&self) -> EdgeConfigV {
        EdgeConfigV { attributes: strings_v(self.attributes@) }
    }
}

impl View for NodeConfig {
    type V = NodeConfigV;

    open spec fn view(&self) -> NodeConfigV {
        NodeConfigV {
            attributes: strings_v(self.attributes@),
            color_attribute: self.color_attribute@,
        }
    }
}

impl View for FlowConfig {
    type V = FlowConfigV;

    open spec fn view(&self) -> FlowConfigV {
        FlowConfigV { node: self.node@, edge: self.edge@ }
    }
}

impl View for UiConfig {
    type V = UiConfigV;

    open spec fn view(&self) -> UiConfigV {
        UiConfigV { colorscheme: self.colorscheme@, flow: self.flow@ }
    }
}

impl View for Config {
    type V = ConfigV;

    open spec fn view(&self) -> ConfigV {
        ConfigV { port: self.port as int, elastic: self.elastic@, ui: self.ui@ }
    }
}

} // verus!
