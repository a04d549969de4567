//! Text renderings of bus state for debugging: the HDMA channel registers
//! and the start of an HDMA table.

use vstd::prelude::*;
use crate::bus::{Bus, BusTarget, DmaChannel};

verus! {

/// The upper-case hexadecimal digit for `d < 16`.
pub open spec fn hex_digit(d: nat) -> char {
    if d < 10 {
        ((48 + d) as u32) as char
    } else {
        ((55 + d) as u32) as char
    }
}

/// `v` in upper-case hexadecimal, zero-padded on the left to at least
/// `width` digits.
pub open spec fn hex_text(v: nat, width: nat) -> Seq<char>
    decreases v, width,
{
    if v < 16 && width <= 1 {
        seq![hex_digit(v)]
    } else {
        hex_text(v / 16, if width > 0 { (width - 1) as nat } else { 0 }).push(hex_digit(v % 16))
    }
}

/// Upper-case hexadecimal text of `v`, at least `width` digits, with
/// leading zeros (`format!` with `{:0width$X}`).
#[verifier::external_body]
fn hex(v: u32, width: usize) -> (s: String)
    requires
        width <= 8,
    ensures
        s@ == hex_text(v as nat, width as nat),
{
    format!("{:0width$X}", v, width = width)
}

/// `true` or `false`, as `{}` prints a `bool`.
pub open spec fn bool_text(b: bool) -> Seq<char> {
    if b {
        "true"@
    } else {
        "false"@
    }
}

/// One channel of the HDMA summary.
pub open spec fn hdma_channel_text(ch: nat, d: DmaChannel) -> Seq<char> {
    " ch"@ + hex_text(ch, 1) + "[ctrl="@ + hex_text(d.control as nat, 2) + " breg="@ + hex_text(
        d.b_reg as nat,
        2,
    ) + " a="@ + hex_text(d.a_bank as nat, 2) + ":"@ + hex_text(d.a_addr as nat, 4) + " size="@
        + hex_text(d.size as nat, 4) + " ibank="@ + hex_text(d.hdma_bank as nat, 2) + " lc="@
        + hex_text(d.line_count as nat, 2) + " ha="@ + hex_text(d.hdma_a as nat, 4) + " dt="@
        + bool_text(d.hdma_do_transfer) + "]"@
}

/// Channels `0..n` of the HDMA summary, in order.
pub open spec fn hdma_channels_text(chs: Seq<DmaChannel>, n: nat) -> Seq<char>
    decreases n,
{
    if n == 0 {
        Seq::empty()
    } else {
        hdma_channels_text(chs, (n - 1) as nat) + hdma_channel_text((n - 1) as nat, chs[n - 1])
    }
}

/// The whole HDMA summary: the enable mask, then every channel.
pub open spec fn hdma_summary_text(active: u8, chs: Seq<DmaChannel>) -> Seq<char> {
    "hdma_active="@ + hex_text(active as nat, 2) + hdma_channels_text(chs, 8)
}

/// The bytes of a table dump, each as a space and two hex digits.
pub open spec fn table_bytes_text(bytes: Seq<u8>) -> Seq<char>
    decreases bytes.len(),
{
    if bytes.len() == 0 {
        Seq::empty()
    } else {
        table_bytes_text(bytes.drop_last()) + " "@ + hex_text(bytes.last() as nat, 2)
    }
}

/// The table dump of channel `ch` with registers `d` and table bytes `bytes`.
pub open spec fn hdma_table_text(ch: nat, d: DmaChannel, bytes: Seq<u8>) -> Seq<char> {
    "ch"@ + hex_text(ch, 1) + " a="@ + hex_text(d.a_bank as nat, 2) + ":"@ + hex_text(d.a_addr as nat, 4)
        + " table:"@ + table_bytes_text(bytes)
}

/// The first channel whose B-bus register is `breg`, if any.
pub open spec fn first_channel_for(chs: Seq<DmaChannel>, breg: u8) -> Option<nat> {
    if exists|i: int| 0 <= i < 8 && #[trigger] chs[i].b_reg == breg {
        Some(
            (choose|i: int|
                0 <= i < 8 && chs[i].b_reg == breg && forall|j: int| 0 <= j < i ==> #[trigger] chs[j].b_reg != breg) as nat,
        )
    } else {
        None
    }
}

/// Address `i` bytes into a table at `a_addr`, wrapping within the bank.
pub open spec fn table_addr(a_addr: u16, i: int) -> u16 {
    ((a_addr as int + i) % 0x10000) as u16
}

/// A read target whose value is `peek` and which does not depend on the
/// data-bus latch.
pub open spec fn stable_read_target(t: BusTarget) -> bool {
    Bus::plain_read_target(t) && !(t is Joy2)
}

/// One channel of the HDMA summary.
fn channel_text(ch: usize, d: DmaChannel) -> (t: String)
    requires
        ch < 8,
    ensures
        t@ == hdma_channel_text(ch as nat, d),
{
    let mut t = String::from_str(" ch");
    t.append(hex(ch as u32, 1).as_str());
    t.append("[ctrl=");
    t.append(hex(d.control as u32, 2).as_str());
    t.append(" breg=");
    t.append(hex(d.b_reg as u32, 2).as_str());
    t.append(" a=");
    t.append(hex(d.a_bank as u32, 2).as_str());
    t.append(":");
    t.append(hex(d.a_addr as u32, 4).as_str());
    t.append(" size=");
    t.append(hex(d.size as u32, 4).as_str());
    t.append(" ibank=");
    t.append(hex(d.hdma_bank as u32, 2).as_str());
    t.append(" lc=");
    t.append(hex(d.line_count as u32, 2).as_str());
    t.append(" ha=");
    t.append(hex(d.hdma_a as u32, 4).as_str());
    t.append(" dt=");
    if d.hdma_do_transfer {
        t.append("true");
    } else {
        t.append("false");
    }
    t.append("]");
    t
}

impl Bus {
    /// The HDMA enable mask and each channel's registers as text.
    pub fn debug_hdma(&self) -> (s: String)
        ensures
            s@ == hdma_summary_text(self.hdma_active, self.dma_channels@),
    {
        let mut s = String::from_str("hdma_active=");
        s.append(hex(self.hdma_active as u32, 2).as_str());
        let ghost head = s@;
        let mut ch: usize = 0;
        while ch < 8
            invariant
                ch <= 8,
                head == "hdma_active="@ + hex_text(self.hdma_active as nat, 2),
                s@ == head + hdma_channels_text(self.dma_channels@, ch as nat),
            decreases 8 - ch,
        {
            let t = channel_text(ch, self.dma_channels[ch]);
            let ghost done = hdma_channels_text(self.dma_channels@, ch as nat);
            s.append(t.as_str());
            proof {
                assert(head + done + t@ =~= head + (done + t@));
            }
            ch += 1;
        }
        s
    }

    /// The first 24 bytes of the HDMA table of the first channel that
    /// targets B-bus register `breg`, as text. The table reads do not
    /// charge the CPU's wait-state account.
    pub fn debug_hdma_table(&mut self, breg: u8) -> (s: String)
        requires
            old(self).wf(),
        ensures
            final(self).wf(),
            final(self).access_extra == old(self).access_extra,
            final(self).wram == old(self).wram,
            first_channel_for(old(self).dma_channels@, breg) is None ==> s@ == "no channel"@
                && *final(self) == *old(self),
            first_channel_for(old(self).dma_channels@, breg) matches Some(ch) ==> {
                let d = old(self).dma_channels@[ch as int];
                exists|bytes: Seq<u8>|
                    {
                        &&& bytes.len() == 24
                        &&& s@ == hdma_table_text(ch, d, bytes)
                        &&& (forall|i: int| 0 <= i < 24 ==> stable_read_target(
                            #[trigger] old(self).target(d.a_bank, table_addr(d.a_addr, i)),
                        )) ==> forall|i: int|
                            0 <= i < 24 ==> bytes[i] == #[trigger] old(self).peek(d.a_bank, table_addr(d.a_addr, i))
                    }
            },
    {
        let saved_extra = self.take_access_extra();
        let ghost base = *self;
        assert(base.wf());
        let mut ch: usize = 0;
        while ch < 8
            invariant
                ch <= 8,
                *self == base,
                base.wf(),
                saved_extra == old(self).access_extra,
                base == (Bus { access_extra: 0, ..*old(self) }),
                forall|j: int| 0 <= j < ch ==> #[trigger] old(self).dma_channels@[j].b_reg != breg,
            decreases 8 - ch,
        {
            let d = self.dma_channels[ch];
            if d.b_reg == breg {
                proof {
                    let chs = old(self).dma_channels@;
                    assert(chs[ch as int].b_reg == breg);
                    let c = choose|i: int|
                        0 <= i < 8 && chs[i].b_reg == breg && forall|j: int| 0 <= j < i ==> #[trigger] chs[j].b_reg != breg;
                    assert(0 <= c < 8 && chs[c].b_reg == breg && forall|j: int| 0 <= j < c ==> #[trigger] chs[j].b_reg != breg);
                    if c < ch {
                        assert(chs[c].b_reg != breg);
                    }
                    if c > ch {
                        assert(chs[ch as int].b_reg != breg);
                    }
                    assert(first_channel_for(chs, breg) == Some(ch as nat));
                }
                let ghost all_stable = forall|i: int| 0 <= i < 24 ==> stable_read_target(
                    #[trigger] old(self).target(d.a_bank, table_addr(d.a_addr, i)),
                );
                let mut s = String::from_str("ch");
                s.append(hex(ch as u32, 1).as_str());
                s.append(" a=");
                s.append(hex(d.a_bank as u32, 2).as_str());
                s.append(":");
                s.append(hex(d.a_addr as u32, 4).as_str());
                s.append(" table:");
                let ghost head = s@;
                let ghost mut bytes: Seq<u8> = Seq::empty();
                let mut i: u16 = 0;
                while i < 24
                    invariant
                        i <= 24,
                        bytes.len() == i,
                        s@ == head + table_bytes_text(bytes),
                        self.wf(),
                        self.wram == old(self).wram,
                        all_stable ==> *self == (Bus {
                            access_extra: self.access_extra,
                            open_bus: self.open_bus,
                            ..base
                        }),
                        all_stable ==> forall|j: int|
                            0 <= j < i ==> bytes[j] == #[trigger] old(self).peek(d.a_bank, table_addr(d.a_addr, j)),
                        base == (Bus { access_extra: 0, ..*old(self) }),
                        d == old(self).dma_channels@[ch as int],
                        saved_extra == old(self).access_extra,
                        all_stable == forall|k: int| 0 <= k < 24 ==> stable_read_target(
                            #[trigger] old(self).target(d.a_bank, table_addr(d.a_addr, k)),
                        ),
                    decreases 24 - i,
                {
                    let addr = d.a_addr.wrapping_add(i);
                    let ghost pre = *self;
                    let v = self.read(d.a_bank, addr);
                    proof {
                        assert(addr == table_addr(d.a_addr, i as int));
                        if all_stable {
                            assert(stable_read_target(old(self).target(d.a_bank, table_addr(d.a_addr, i as int))));
                            assert(pre.target(d.a_bank, addr) == old(self).target(d.a_bank, addr));
                            assert(pre.peek(d.a_bank, addr) == old(self).peek(d.a_bank, addr));
                        }
                        let nb = bytes.push(v);
                        assert(nb.drop_last() == bytes);
                        assert(table_bytes_text(nb) == table_bytes_text(bytes) + " "@ + hex_text(v as nat, 2));
                        bytes = nb;
                    }
                    s.append(" ");
                    s.append(hex(v as u32, 2).as_str());
                    i += 1;
                }
                self.access_extra = saved_extra;
                return s;
            }
            ch += 1;
        }
        self.access_extra = saved_extra;
        String::from_str("no channel")
    }
}

} // verus!
