use vstd::prelude::*;

verus! {

/// Fewest channels a bus may expose: the engine reads exactly a left and a
/// right channel from every bus.
pub const MIN_CHANNELS: u32 = 2;

/// The bus whose channel count was rejected at configuration time.
#[derive(Clone, Copy, Debug, PartialEq, Eq, Structural)]
pub enum Bus {
    MainInput,
    MainOutput,
    AuxInput,
}

/// Reported when a proposed layout offers a bus with fewer than
/// `MIN_CHANNELS` channels. Raised once at setup time, never on the
/// per-sample path.
#[derive(Clone, Copy, Debug, PartialEq, Eq, Structural)]
pub struct ConfigError {
    /// The first bus, in the order main input, main output, auxiliary input,
    /// whose channel count fell short.
    pub bus: Bus,
    /// The channel count that bus exposed.
    pub channels: u32,
}

/// A validated bus layout: a value of this type certifies that the main
/// input, main output and auxiliary input buses all expose at least
/// `MIN_CHANNELS` channels, so the per-sample path may read channels 0 and 1
/// of each without any further check.
#[derive(Clone, Copy, Debug)]
pub struct EngineConfig {
    main_input: u32,
    main_output: u32,
    aux_input: u32,
}

impl EngineConfig {
    /// Channels on the main input bus.
    pub closed spec fn main_input_channels(self) -> u32 {
        self.main_input
    }

    /// Channels on the main output bus.
    pub closed spec fn main_output_channels(self) -> u32 {
        self.main_output
    }

    /// Channels on the auxiliary input bus.
    pub closed spec fn aux_input_channels(self) -> u32 {
        self.aux_input
    }

    #[verifier::type_invariant]
    spec fn stereo_capable(self) -> bool {
        &&& self.main_input >= MIN_CHANNELS
        &&& self.main_output >= MIN_CHANNELS
        &&& self.aux_input >= MIN_CHANNELS
    }

    /// Validates a proposed bus layout once, at setup time. Succeeds exactly
    /// when every bus exposes at least `MIN_CHANNELS` channels; otherwise
    /// reports the first bus that falls short, in the order main input, main
    /// output, auxiliary input.
    pub fn new(main_input: u32, main_output: u32, aux_input: u32) -> (r: Result<
        EngineConfig,
        ConfigError,
    >)
        ensures
            r is Ok <==> (main_input >= MIN_CHANNELS && main_output >= MIN_CHANNELS && aux_input
                >= MIN_CHANNELS),
            (r matches Ok(c) ==> c.main_input_channels() == main_input
                && c.main_output_channels() == main_output && c.aux_input_channels() == aux_input),
            main_input < MIN_CHANNELS ==> (r matches Err(e) && e == (ConfigError {
                bus: Bus::MainInput,
                channels: main_input,
            })),
            main_input >= MIN_CHANNELS && main_output < MIN_CHANNELS ==> (r matches Err(e) && e
                == (ConfigError { bus: Bus::MainOutput, channels: main_output })),
            main_input >= MIN_CHANNELS && main_output >= MIN_CHANNELS && aux_input < MIN_CHANNELS
                ==> (r matches Err(e) && e == (ConfigError {
                bus: Bus::AuxInput,
                channels: aux_input,
            })),
    {
        if main_input < MIN_CHANNELS {
            Err(ConfigError { bus: Bus::MainInput, channels: main_input })
        } else if main_output < MIN_CHANNELS {
            Err(ConfigError { bus: Bus::MainOutput, channels: main_output })
        } else if aux_input < MIN_CHANNELS {
            Err(ConfigError { bus: Bus::AuxInput, channels: aux_input })
        } else {
            Ok(EngineConfig { main_input, main_output, aux_input })
        }
    }

    /// The validated channel counts, in the order main input, main output,
    /// auxiliary input; each is at least `MIN_CHANNELS`.
    pub fn channel_counts(&self) -> (c: (u32, u32, u32))
        ensures
            c.0 == self.main_input_channels(),
            c.1 == self.main_output_channels(),
            c.2 == self.aux_input_channels(),
            c.0 >= MIN_CHANNELS && c.1 >= MIN_CHANNELS && c.2 >= MIN_CHANNELS,
    {
        proof {
            use_type_invariant(self);
        }
        (self.main_input, self.main_output, self.aux_input)
    }
}

} // verus!
