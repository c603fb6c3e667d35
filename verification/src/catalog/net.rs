//! The network channel interfaces: message groups, channel and
//! handler slot tables for one target binary revision.

#![allow(non_snake_case)]

use vstd::prelude::*;

use crate::vtable::{CallingConvention, SlotDescriptor};

verus! {

/// The engine's network message groups.
#[derive(Clone, Copy, Debug, PartialEq, Eq, Structural)]
pub enum NetEnum {
    /// Messages of no particular group.
    Generic,
    /// Data about this player.
    LocalPlayer,
    /// Data about other players.
    OtherPlayers,
    /// Entity state.
    Entities,
    /// Sound events.
    Sounds,
    /// Game events.
    Events,
    /// User messages.
    Usermessages,
    /// Entity messages.
    EntMessages,
    /// Voice data.
    Voice,
    /// String table updates.
    Stringtable,
    /// Movement commands.
    Move,
    /// String commands.
    Stringcmd,
    /// Sign-on state.
    Signon,
    /// Count of groups.
    Total,
}

impl NetEnum {
    /// The value the foreign side encodes this group as.
    pub open spec fn spec_code(self) -> int {
        match self {
            NetEnum::Generic => 0,
            NetEnum::LocalPlayer => 1,
            NetEnum::OtherPlayers => 2,
            NetEnum::Entities => 3,
            NetEnum::Sounds => 4,
            NetEnum::Events => 5,
            NetEnum::Usermessages => 6,
            NetEnum::EntMessages => 7,
            NetEnum::Voice => 8,
            NetEnum::Stringtable => 9,
            NetEnum::Move => 10,
            NetEnum::Stringcmd => 11,
            NetEnum::Signon => 12,
            NetEnum::Total => 13,
        }
    }

    /// Encodes the group for the foreign side.
    pub fn code(&self) -> (r: i32)
        ensures
            r == self.spec_code(),
    {
        match self {
            NetEnum::Generic => 0,
            NetEnum::LocalPlayer => 1,
            NetEnum::OtherPlayers => 2,
            NetEnum::Entities => 3,
            NetEnum::Sounds => 4,
            NetEnum::Events => 5,
            NetEnum::Usermessages => 6,
            NetEnum::EntMessages => 7,
            NetEnum::Voice => 8,
            NetEnum::Stringtable => 9,
            NetEnum::Move => 10,
            NetEnum::Stringcmd => 11,
            NetEnum::Signon => 12,
            NetEnum::Total => 13,
        }
    }
}

/// Slot table of the read-only channel information interface.  The
/// object also carries its message group as plain data.
pub struct NetChannelInfo {
    /// The channel's message group.
    pub ty: NetEnum,
    /// Slot of the channel-name accessor.
    pub GetName: SlotDescriptor,
    /// Slot of the remote-address accessor.
    pub GetAddress: SlotDescriptor,
    /// Slot of the connection-time accessor.
    pub GetTime: SlotDescriptor,
    /// Slot of the time-connected accessor.
    pub GetTimeConnected: SlotDescriptor,
    /// Slot of the buffer-size accessor.
    pub GetBufferSize: SlotDescriptor,
    /// Slot of the data-rate accessor.
    pub GetDataRate: SlotDescriptor,
    /// Slot of the loopback test.
    pub IsLoopback: SlotDescriptor,
    /// Slot of the timing-out test.
    pub IsTimingOut: SlotDescriptor,
    /// Slot of the demo-playback test.
    pub IsPlayback: SlotDescriptor,
    /// Slot of the current-latency accessor.
    pub GetLatency: SlotDescriptor,
    /// Slot of the average-latency accessor.
    pub GetAvgLatency: SlotDescriptor,
    /// Slot of the average-loss accessor.
    pub GetAvgLoss: SlotDescriptor,
    /// Slot of the average-choke accessor.
    pub GetAvgChoke: SlotDescriptor,
    /// Slot of the average-data accessor.
    pub GetAvgData: SlotDescriptor,
    /// Slot of the average-packet-rate accessor.
    pub GetAvgPackets: SlotDescriptor,
    /// Slot of the total-data accessor.
    pub GetTotalData: SlotDescriptor,
    /// Slot of the sequence-number accessor.
    pub GetSequenceNr: SlotDescriptor,
    /// Slot of the packet-validity test.
    pub IsValidPacket: SlotDescriptor,
    /// Slot of the packet-time accessor.
    pub GetPacketTime: SlotDescriptor,
    /// Slot of the packet-size accessor.
    pub GetPacketBytes: SlotDescriptor,
    /// Slot of the stream-progress accessor.
    pub GetStreamProgress: SlotDescriptor,
    /// Slot of the time-since-last-received accessor.
    pub GetTimeSinceLastReceived: SlotDescriptor,
    /// Slot of the command-interpolation accessor.
    pub GetCommandInterpolationAmount: SlotDescriptor,
    /// Slot of the packet-response-latency accessor.
    pub GetPacketResponseLatency: SlotDescriptor,
    /// Slot of the remote-framerate accessor.
    pub GetRemoteFramerate: SlotDescriptor,
    /// Slot of the timeout accessor.
    pub GetTimeoutSeconds: SlotDescriptor,
}

impl NetChannelInfo {
    /// The documented slot numbers of this revision: the read-only
    /// methods occupy the first twenty-six slots in declaration order.
    pub open spec fn wf(self) -> bool {
        &&& self.GetName.spec_effective() == 0
        &&& self.GetAddress.spec_effective() == 1
        &&& self.GetTime.spec_effective() == 2
        &&& self.GetTimeConnected.spec_effective() == 3
        &&& self.GetBufferSize.spec_effective() == 4
        &&& self.GetDataRate.spec_effective() == 5
        &&& self.IsLoopback.spec_effective() == 6
        &&& self.IsTimingOut.spec_effective() == 7
        &&& self.IsPlayback.spec_effective() == 8
        &&& self.GetLatency.spec_effective() == 9
        &&& self.GetAvgLatency.spec_effective() == 10
        &&& self.GetAvgLoss.spec_effective() == 11
        &&& self.GetAvgChoke.spec_effective() == 12
        &&& self.GetAvgData.spec_effective() == 13
        &&& self.GetAvgPackets.spec_effective() == 14
        &&& self.GetTotalData.spec_effective() == 15
        &&& self.GetSequenceNr.spec_effective() == 16
        &&& self.IsValidPacket.spec_effective() == 17
        &&& self.GetPacketTime.spec_effective() == 18
        &&& self.GetPacketBytes.spec_effective() == 19
        &&& self.GetStreamProgress.spec_effective() == 20
        &&& self.GetTimeSinceLastReceived.spec_effective() == 21
        &&& self.GetCommandInterpolationAmount.spec_effective() == 22
        &&& self.GetPacketResponseLatency.spec_effective() == 23
        &&& self.GetRemoteFramerate.spec_effective() == 24
        &&& self.GetTimeoutSeconds.spec_effective() == 25
    }

    /// The revision's slot table, for a channel of the given group.
    pub fn layout(ty: NetEnum) -> (r: Self)
        ensures
            r.wf(),
            r.ty == ty,
    {
        NetChannelInfo {
            ty,
            GetName: SlotDescriptor { index: 0, skip: 0, convention: CallingConvention::C },
            GetAddress: SlotDescriptor { index: 1, skip: 0, convention: CallingConvention::C },
            GetTime: SlotDescriptor { index: 2, skip: 0, convention: CallingConvention::C },
            GetTimeConnected: SlotDescriptor {
                index: 3,
                skip: 0,
                convention: CallingConvention::C,
            },
            GetBufferSize: SlotDescriptor { index: 4, skip: 0, convention: CallingConvention::C },
            GetDataRate: SlotDescriptor { index: 5, skip: 0, convention: CallingConvention::C },
            IsLoopback: SlotDescriptor { index: 6, skip: 0, convention: CallingConvention::C },
            IsTimingOut: SlotDescriptor { index: 7, skip: 0, convention: CallingConvention::C },
            IsPlayback: SlotDescriptor { index: 8, skip: 0, convention: CallingConvention::C },
            GetLatency: SlotDescriptor { index: 9, skip: 0, convention: CallingConvention::C },
            GetAvgLatency: SlotDescriptor { index: 10, skip: 0, convention: CallingConvention::C },
            GetAvgLoss: SlotDescriptor { index: 11, skip: 0, convention: CallingConvention::C },
            GetAvgChoke: SlotDescriptor { index: 12, skip: 0, convention: CallingConvention::C },
            GetAvgData: SlotDescriptor { index: 13, skip: 0, convention: CallingConvention::C },
            GetAvgPackets: SlotDescriptor { index: 14, skip: 0, convention: CallingConvention::C },
            GetTotalData: SlotDescriptor { index: 15, skip: 0, convention: CallingConvention::C },
            GetSequenceNr: SlotDescriptor { index: 16, skip: 0, convention: CallingConvention::C },
            IsValidPacket: SlotDescriptor { index: 17, skip: 0, convention: CallingConvention::C },
            GetPacketTime: SlotDescriptor { index: 18, skip: 0, convention: CallingConvention::C },
            GetPacketBytes: SlotDescriptor { index: 19, skip: 0, convention: CallingConvention::C },
            GetStreamProgress: SlotDescriptor {
                index: 20,
                skip: 0,
                convention: CallingConvention::C,
            },
            GetTimeSinceLastReceived: SlotDescriptor {
                index: 21,
                skip: 0,
                convention: CallingConvention::C,
            },
            GetCommandInterpolationAmount: SlotDescriptor {
                index: 22,
                skip: 0,
                convention: CallingConvention::C,
            },
            GetPacketResponseLatency: SlotDescriptor {
                index: 23,
                skip: 0,
                convention: CallingConvention::C,
            },
            GetRemoteFramerate: SlotDescriptor {
                index: 24,
                skip: 0,
                convention: CallingConvention::C,
            },
            GetTimeoutSeconds: SlotDescriptor {
                index: 25,
                skip: 0,
                convention: CallingConvention::C,
            },
        }
    }
}

/// Slot table of the channel-handler callback object a client hands to
/// a channel.  The first slot belongs to the ABI, not to callers.
pub struct NetChannelHandler {
    /// Slot of the connection-established callback.
    pub ConnectionStart: SlotDescriptor,
    /// Slot of the intentional-close callback.
    pub ConnectionClosing: SlotDescriptor,
    /// Slot of the error-close callback.
    pub ConnectionCrashed: SlotDescriptor,
    /// Slot of the packet-start callback.
    pub PacketStart: SlotDescriptor,
    /// Slot of the packet-end callback.
    pub PacketEnd: SlotDescriptor,
    /// Slot of the file-requested callback.
    pub FileRequested: SlotDescriptor,
    /// Slot of the file-received callback.
    pub FileReceived: SlotDescriptor,
    /// Slot of the file-denied callback.
    pub FileDenied: SlotDescriptor,
    /// Slot of the file-sent callback.
    pub FileSent: SlotDescriptor,
    /// Slot of the file-acceptance decision.
    pub ShouldAcceptFile: SlotDescriptor,
}

impl NetChannelHandler {
    /// The documented slot numbers of this revision.
    pub open spec fn wf(self) -> bool {
        &&& self.ConnectionStart.spec_effective() == 1
        &&& self.ConnectionClosing.spec_effective() == 2
        &&& self.ConnectionCrashed.spec_effective() == 3
        &&& self.PacketStart.spec_effective() == 4
        &&& self.PacketEnd.spec_effective() == 5
        &&& self.FileRequested.spec_effective() == 6
        &&& self.FileReceived.spec_effective() == 7
        &&& self.FileDenied.spec_effective() == 8
        &&& self.FileSent.spec_effective() == 9
        &&& self.ShouldAcceptFile.spec_effective() == 10
    }

    /// The revision's slot table.
    pub fn layout() -> (r: Self)
        ensures
            r.wf(),
    {
        NetChannelHandler {
            ConnectionStart: SlotDescriptor {
                index: 0,
                skip: 1,
                convention: CallingConvention::C,
            },
            ConnectionClosing: SlotDescriptor {
                index: 1,
                skip: 1,
                convention: CallingConvention::C,
            },
            ConnectionCrashed: SlotDescriptor {
                index: 2,
                skip: 1,
                convention: CallingConvention::C,
            },
            PacketStart: SlotDescriptor { index: 3, skip: 1, convention: CallingConvention::C },
            PacketEnd: SlotDescriptor { index: 4, skip: 1, convention: CallingConvention::C },
            FileRequested: SlotDescriptor { index: 5, skip: 1, convention: CallingConvention::C },
            FileReceived: SlotDescriptor { index: 6, skip: 1, convention: CallingConvention::C },
            FileDenied: SlotDescriptor { index: 7, skip: 1, convention: CallingConvention::C },
            FileSent: SlotDescriptor { index: 8, skip: 1, convention: CallingConvention::C },
            ShouldAcceptFile: SlotDescriptor {
                index: 9,
                skip: 1,
                convention: CallingConvention::C,
            },
        }
    }
}

/// Slot table of a network message object.
pub struct NetMessage {
    /// Slot of the channel setter.
    pub SetNetChannel: SlotDescriptor,
    /// Slot of the reliability setter.
    pub SetReliable: SlotDescriptor,
    /// Slot of the processing method.
    pub Process: SlotDescriptor,
    /// Slot of the buffer reader.
    pub ReadFromBuffer: SlotDescriptor,
    /// Slot of the buffer writer.
    pub WriteToBuffer: SlotDescriptor,
    /// Slot of the reliability test.
    pub IsReliable: SlotDescriptor,
    /// Slot of the message-type accessor.
    pub GetType: SlotDescriptor,
    /// Slot of the message-group accessor.
    pub GetGroup: SlotDescriptor,
    /// Slot of the message-name accessor.
    pub GetName: SlotDescriptor,
    /// Slot of the channel accessor.
    pub GetNetChannel: SlotDescriptor,
    /// Slot of the text-rendering method.
    pub ToString: SlotDescriptor,
}

impl NetMessage {
    /// The documented slot numbers of this revision.
    pub open spec fn wf(self) -> bool {
        &&& self.SetNetChannel.spec_effective() == 1
        &&& self.SetReliable.spec_effective() == 2
        &&& self.Process.spec_effective() == 3
        &&& self.ReadFromBuffer.spec_effective() == 4
        &&& self.WriteToBuffer.spec_effective() == 5
        &&& self.IsReliable.spec_effective() == 6
        &&& self.GetType.spec_effective() == 7
        &&& self.GetGroup.spec_effective() == 8
        &&& self.GetName.spec_effective() == 9
        &&& self.GetNetChannel.spec_effective() == 10
        &&& self.ToString.spec_effective() == 11
    }

    /// The revision's slot table.
    pub fn layout() -> (r: Self)
        ensures
            r.wf(),
    {
        NetMessage {
            SetNetChannel: SlotDescriptor { index: 0, skip: 1, convention: CallingConvention::C },
            SetReliable: SlotDescriptor { index: 1, skip: 1, convention: CallingConvention::C },
            Process: SlotDescriptor { index: 2, skip: 1, convention: CallingConvention::C },
            ReadFromBuffer: SlotDescriptor { index: 3, skip: 1, convention: CallingConvention::C },
            WriteToBuffer: SlotDescriptor { index: 4, skip: 1, convention: CallingConvention::C },
            IsReliable: SlotDescriptor { index: 5, skip: 1, convention: CallingConvention::C },
            GetType: SlotDescriptor { index: 6, skip: 1, convention: CallingConvention::C },
            GetGroup: SlotDescriptor { index: 7, skip: 1, convention: CallingConvention::C },
            GetName: SlotDescriptor { index: 8, skip: 1, convention: CallingConvention::C },
            GetNetChannel: SlotDescriptor { index: 9, skip: 1, convention: CallingConvention::C },
            ToString: SlotDescriptor { index: 10, skip: 1, convention: CallingConvention::C },
        }
    }
}

/// Slot table of the writable side of a network channel.  The channel
/// extends the read-only information interface, whose slots come
/// first; a destructor pair and two ABI-only entries are skipped.
pub struct NetChannel {
    /// Slot of the data-rate setter.
    pub SetDataRate: SlotDescriptor,
    /// Slot of the message registration method.
    pub RegisterMessage: SlotDescriptor,
    /// Slot of the stream-start method.
    pub StartStreaming: SlotDescriptor,
    /// Slot of the stream-reset method.
    pub ResetStreaming: SlotDescriptor,
    /// Slot of the timeout setter.
    pub SetTimeout: SlotDescriptor,
    /// Slot of the demo-recorder setter.
    pub SetDemoRecorder: SlotDescriptor,
    /// Slot of the challenge-number setter.
    pub SetChallengeNr: SlotDescriptor,
    /// Slot of the reset method.
    pub Reset: SlotDescriptor,
    /// Slot of the clear method.
    pub Clear: SlotDescriptor,
    /// Slot of the shutdown method.
    pub Shutdown: SlotDescriptor,
    /// Slot of the playback processor.
    pub ProcessPlayback: SlotDescriptor,
    /// Slot of the stream processor.
    pub ProcessStream: SlotDescriptor,
    /// Slot of the packet processor.
    pub ProcessPacket: SlotDescriptor,
    /// Slot of the message sender.
    pub SendNetMsg: SlotDescriptor,
    /// Slot of the file sender.
    pub SendFile: SlotDescriptor,
    /// Slot of the file-denial method.
    pub DenyFile: SlotDescriptor,
    /// Slot of the superseded file-request method.
    pub RequestFile_Old: SlotDescriptor,
    /// Slot of the choke marker.
    pub SetChoked: SlotDescriptor,
    /// Slot of the datagram sender.
    pub SendDatagram: SlotDescriptor,
    /// Slot of the transmit method.
    pub Transmit: SlotDescriptor,
    /// Slot of the handler accessor.
    pub GetMsgHandler: SlotDescriptor,
    /// Slot of the drop-count accessor.
    pub GetDropNumber: SlotDescriptor,
    /// Slot of the socket accessor.
    pub GetSocket: SlotDescriptor,
    /// Slot of the challenge-number accessor.
    pub GetChallengeNr: SlotDescriptor,
}

impl NetChannel {
    /// The documented slot numbers of this revision.
    pub open spec fn wf(self) -> bool {
        &&& self.SetDataRate.spec_effective() == 27
        &&& self.RegisterMessage.spec_effective() == 28
        &&& self.StartStreaming.spec_effective() == 29
        &&& self.ResetStreaming.spec_effective() == 30
        &&& self.SetTimeout.spec_effective() == 31
        &&& self.SetDemoRecorder.spec_effective() == 32
        &&& self.SetChallengeNr.spec_effective() == 33
        &&& self.Reset.spec_effective() == 34
        &&& self.Clear.spec_effective() == 35
        &&& self.Shutdown.spec_effective() == 36
        &&& self.ProcessPlayback.spec_effective() == 37
        &&& self.ProcessStream.spec_effective() == 38
        &&& self.ProcessPacket.spec_effective() == 39
        &&& self.SendNetMsg.spec_effective() == 40
        &&& self.SendFile.spec_effective() == 42
        &&& self.DenyFile.spec_effective() == 43
        &&& self.RequestFile_Old.spec_effective() == 44
        &&& self.SetChoked.spec_effective() == 45
        &&& self.SendDatagram.spec_effective() == 46
        &&& self.Transmit.spec_effective() == 47
        &&& self.GetMsgHandler.spec_effective() == 49
        &&& self.GetDropNumber.spec_effective() == 50
        &&& self.GetSocket.spec_effective() == 51
        &&& self.GetChallengeNr.spec_effective() == 52
    }

    /// The revision's slot table.
    pub fn layout() -> (r: Self)
        ensures
            r.wf(),
    {
        NetChannel {
            SetDataRate: SlotDescriptor { index: 0, skip: 27, convention: CallingConvention::C },
            RegisterMessage: SlotDescriptor {
                index: 1,
                skip: 27,
                convention: CallingConvention::C,
            },
            StartStreaming: SlotDescriptor {
                index: 2,
                skip: 27,
                convention: CallingConvention::C,
            },
            ResetStreaming: SlotDescriptor {
                index: 3,
                skip: 27,
                convention: CallingConvention::C,
            },
            SetTimeout: SlotDescriptor { index: 4, skip: 27, convention: CallingConvention::C },
            SetDemoRecorder: SlotDescriptor {
                index: 5,
                skip: 27,
                convention: CallingConvention::C,
            },
            SetChallengeNr: SlotDescriptor {
                index: 6,
                skip: 27,
                convention: CallingConvention::C,
            },
            Reset: SlotDescriptor { index: 7, skip: 27, convention: CallingConvention::C },
            Clear: SlotDescriptor { index: 8, skip: 27, convention: CallingConvention::C },
            Shutdown: SlotDescriptor { index: 9, skip: 27, convention: CallingConvention::C },
            ProcessPlayback: SlotDescriptor {
                index: 10,
                skip: 27,
                convention: CallingConvention::C,
            },
            ProcessStream: SlotDescriptor { index: 11, skip: 27, convention: CallingConvention::C },
            ProcessPacket: SlotDescriptor { index: 12, skip: 27, convention: CallingConvention::C },
            SendNetMsg: SlotDescriptor { index: 13, skip: 27, convention: CallingConvention::C },
            SendFile: SlotDescriptor { index: 14, skip: 28, convention: CallingConvention::C },
            DenyFile: SlotDescriptor { index: 15, skip: 28, convention: CallingConvention::C },
            RequestFile_Old: SlotDescriptor {
                index: 16,
                skip: 28,
                convention: CallingConvention::C,
            },
            SetChoked: SlotDescriptor { index: 17, skip: 28, convention: CallingConvention::C },
            SendDatagram: SlotDescriptor { index: 18, skip: 28, convention: CallingConvention::C },
            Transmit: SlotDescriptor { index: 19, skip: 28, convention: CallingConvention::C },
            GetMsgHandler: SlotDescriptor { index: 20, skip: 29, convention: CallingConvention::C },
            GetDropNumber: SlotDescriptor { index: 21, skip: 29, convention: CallingConvention::C },
            GetSocket: SlotDescriptor { index: 22, skip: 29, convention: CallingConvention::C },
            GetChallengeNr: SlotDescriptor { index: 23, skip: 29, convention: CallingConvention::C },
        }
    }
}

/// Slot table of the combined network channel as a single flat
/// interface: the read-only slots first, then the writable ones.
pub struct CNetChan {
    /// Slot of the channel-name accessor.
    pub GetName: SlotDescriptor,
    /// Slot of the remote-address accessor.
    pub GetAddress: SlotDescriptor,
    /// Slot of the connection-time accessor.
    pub GetTime: SlotDescriptor,
    /// Slot of the time-connected accessor.
    pub GetTimeConnected: SlotDescriptor,
    /// Slot of the buffer-size accessor.
    pub GetBufferSize: SlotDescriptor,
    /// Slot of the data-rate accessor.
    pub GetDataRate: SlotDescriptor,
    /// Slot of the loopback test.
    pub IsLoopback: SlotDescriptor,
    /// Slot of the timing-out test.
    pub IsTimingOut: SlotDescriptor,
    /// Slot of the demo-playback test.
    pub IsPlayback: SlotDescriptor,
    /// Slot of the current-latency accessor.
    pub GetLatency: SlotDescriptor,
    /// Slot of the average-latency accessor.
    pub GetAvgLatency: SlotDescriptor,
    /// Slot of the average-loss accessor.
    pub GetAvgLoss: SlotDescriptor,
    /// Slot of the average-choke accessor.
    pub GetAvgChoke: SlotDescriptor,
    /// Slot of the average-data accessor.
    pub GetAvgData: SlotDescriptor,
    /// Slot of the average-packet-rate accessor.
    pub GetAvgPackets: SlotDescriptor,
    /// Slot of the total-data accessor.
    pub GetTotalData: SlotDescriptor,
}

impl CNetChan {
    /// The documented slot numbers of this revision.
    pub open spec fn wf(self) -> bool {
        &&& self.GetName.spec_effective() == 0
        &&& self.GetAddress.spec_effective() == 1
        &&& self.GetTime.spec_effective() == 2
        &&& self.GetTimeConnected.spec_effective() == 3
        &&& self.GetBufferSize.spec_effective() == 4
        &&& self.GetDataRate.spec_effective() == 5
        &&& self.IsLoopback.spec_effective() == 6
        &&& self.IsTimingOut.spec_effective() == 7
        &&& self.IsPlayback.spec_effective() == 8
        &&& self.GetLatency.spec_effective() == 9
        &&& self.GetAvgLatency.spec_effective() == 10
        &&& self.GetAvgLoss.spec_effective() == 11
        &&& self.GetAvgChoke.spec_effective() == 12
        &&& self.GetAvgData.spec_effective() == 13
        &&& self.GetAvgPackets.spec_effective() == 14
        &&& self.GetTotalData.spec_effective() == 15
    }

    /// The revision's slot table.
    pub fn layout() -> (r: Self)
        ensures
            r.wf(),
    {
        CNetChan {
            GetName: SlotDescriptor { index: 0, skip: 0, convention: CallingConvention::C },
            GetAddress: SlotDescriptor { index: 1, skip: 0, convention: CallingConvention::C },
            GetTime: SlotDescriptor { index: 2, skip: 0, convention: CallingConvention::C },
            GetTimeConnected: SlotDescriptor {
                index: 3,
                skip: 0,
                convention: CallingConvention::C,
            },
            GetBufferSize: SlotDescriptor { index: 4, skip: 0, convention: CallingConvention::C },
            GetDataRate: SlotDescriptor { index: 5, skip: 0, convention: CallingConvention::C },
            IsLoopback: SlotDescriptor { index: 6, skip: 0, convention: CallingConvention::C },
            IsTimingOut: SlotDescriptor { index: 7, skip: 0, convention: CallingConvention::C },
            IsPlayback: SlotDescriptor { index: 8, skip: 0, convention: CallingConvention::C },
            GetLatency: SlotDescriptor { index: 9, skip: 0, convention: CallingConvention::C },
            GetAvgLatency: SlotDescriptor { index: 10, skip: 0, convention: CallingConvention::C },
            GetAvgLoss: SlotDescriptor { index: 11, skip: 0, convention: CallingConvention::C },
            GetAvgChoke: SlotDescriptor { index: 12, skip: 0, convention: CallingConvention::C },
            GetAvgData: SlotDescriptor { index: 13, skip: 0, convention: CallingConvention::C },
            GetAvgPackets: SlotDescriptor { index: 14, skip: 0, convention: CallingConvention::C },
            GetTotalData: SlotDescriptor { index: 15, skip: 0, convention: CallingConvention::C },
        }
    }
}

} // verus!
